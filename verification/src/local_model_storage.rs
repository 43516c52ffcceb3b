//! Validation of runtime storage path segments for local models and engines,
//! and the storage paths built from them.
use vstd::prelude::*;
use crate::text::{chars_of, concat, str_eq, trim, trim_string};

verus! {

/// Why a storage segment was refused.
#[derive(Clone, Debug, PartialEq, Eq)]
pub enum LocalModelStorageError {
    EmptySegment { field: &'static str },
    InvalidSegment { field: &'static str, value: String },
}

/// A character allowed in a storage segment: ASCII letter or digit, `-`, `_` or `.`.
pub open spec fn segment_char(c: char) -> bool {
    ('0' <= c && c <= '9') || ('a' <= c && c <= 'z') || ('A' <= c && c <= 'Z') || c == '-' || c == '_' || c == '.'
}

/// What validating `value` gives: the trimmed segment, `Err(true)` when it is
/// empty, `Err(false)` when it is a traversal marker or holds another character.
pub open spec fn segment_check(value: Seq<char>) -> Result<Seq<char>, bool> {
    let t = trim(value);
    if t.len() == 0 {
        Err(true)
    } else if t == "."@ || t == ".."@ || !(forall|k: int| 0 <= k < t.len() ==> segment_char(#[trigger] t[k])) {
        Err(false)
    } else {
        Ok(t)
    }
}

impl LocalModelStorageError {
    /// The error's text, as its display form shows it.
    pub open spec fn text(self) -> Seq<char> {
        match self {
            LocalModelStorageError::EmptySegment { field } => field@ + " is empty"@,
            LocalModelStorageError::InvalidSegment { field, value } => field@ + " has invalid characters: "@ + value@,
        }
    }

    /// The error's text.
    pub fn message(&self) -> (r: String)
        ensures
            r@ == self.text(),
    {
        match self {
            LocalModelStorageError::EmptySegment { field } => concat(field, " is empty"),
            LocalModelStorageError::InvalidSegment { field, value } => {
                let mut r = concat(field, " has invalid characters: ");
                r.append(value.as_str());
                r
            },
        }
    }
}

/// Whether every character of `v` may stand in a storage segment.
fn all_segment_chars(v: &Vec<char>) -> (r: bool)
    ensures
        r == (forall|k: int| 0 <= k < v@.len() ==> segment_char(#[trigger] v@[k])),
{
    let mut i: usize = 0;
    while i < v.len()
        invariant
            i <= v.len(),
            forall|k: int| 0 <= k < i ==> segment_char(#[trigger] v@[k]),
        decreases v.len() - i,
    {
        let c = v[i];
        if !(('0' <= c && c <= '9') || ('a' <= c && c <= 'z') || ('A' <= c && c <= 'Z') || c == '-' || c == '_' || c == '.') {
            return false;
        }
        i = i + 1;
    }
    true
}

/// Validates one runtime storage path segment and returns its trimmed value.
pub fn validatedStorageSegment(field: &'static str, value: &str) -> (r: Result<String, LocalModelStorageError>)
    ensures
        match (r, segment_check(value@)) {
            (Ok(s), Ok(t)) => s@ == t,
            (Err(LocalModelStorageError::EmptySegment { field: f }), Err(true)) => f@ == field@,
            (Err(LocalModelStorageError::InvalidSegment { field: f, value: v }), Err(false)) => f@ == field@ && v@ == trim(value@),
            _ => false,
        },
{
    let trimmed = trim_string(value);
    let chars = chars_of(trimmed.as_str());
    if chars.len() == 0 {
        return Err(LocalModelStorageError::EmptySegment { field });
    }
    if str_eq(trimmed.as_str(), ".") || str_eq(trimmed.as_str(), "..") {
        return Err(LocalModelStorageError::InvalidSegment { field, value: trimmed });
    }
    if !all_segment_chars(&chars) {
        return Err(LocalModelStorageError::InvalidSegment { field, value: trimmed });
    }
    Ok(trimmed)
}

/// Appends `"/"` and `part` to `path`.
fn push_segment(path: &mut String, part: &str)
    ensures
        final(path)@ == old(path)@ + "/"@ + part@,
{
    path.append("/");
    path.append(part);
}

/// Builds the runtime storage path `models_dir/kind/engine/model/version` for
/// one local model version, after validating the model id and the version.
pub fn buildLocalModelStoragePath(
    models_dir: &str,
    kind_segment: &str,
    engine_segment: &str,
    modelId: &str,
    version: &str,
) -> (r: Result<String, LocalModelStorageError>)
    ensures
        match r {
            Ok(p) => segment_check(modelId@) is Ok && segment_check(version@) is Ok
                && p@ == models_dir@ + "/"@ + kind_segment@ + "/"@ + engine_segment@ + "/"@
                    + segment_check(modelId@)->Ok_0 + "/"@ + segment_check(version@)->Ok_0,
            Err(LocalModelStorageError::EmptySegment { field }) =>
                (segment_check(modelId@) == Err::<Seq<char>, bool>(true) && field@ == "modelId"@)
                || (segment_check(modelId@) is Ok && segment_check(version@) == Err::<Seq<char>, bool>(true) && field@ == "version"@),
            Err(LocalModelStorageError::InvalidSegment { field, value }) =>
                (segment_check(modelId@) == Err::<Seq<char>, bool>(false) && field@ == "modelId"@ && value@ == trim(modelId@))
                || (segment_check(modelId@) is Ok && segment_check(version@) == Err::<Seq<char>, bool>(false) && field@ == "version"@ && value@ == trim(version@)),
        },
{
    let m = match validatedStorageSegment("modelId", modelId) {
        Ok(m) => m,
        Err(e) => return Err(e),
    };
    let v = match validatedStorageSegment("version", version) {
        Ok(v) => v,
        Err(e) => return Err(e),
    };
    let mut path = String::from_str(models_dir);
    push_segment(&mut path, kind_segment);
    push_segment(&mut path, engine_segment);
    push_segment(&mut path, m.as_str());
    push_segment(&mut path, v.as_str());
    Ok(path)
}

/// Builds the runtime storage path `engines_dir/engine/version/target` for one
/// local engine platform target, after validating the engine id and the version.
pub fn buildLocalEngineStoragePath(
    engines_dir: &str,
    engineId: &str,
    version: &str,
    target_segment: &str,
) -> (r: Result<String, LocalModelStorageError>)
    ensures
        match r {
            Ok(p) => segment_check(engineId@) is Ok && segment_check(version@) is Ok
                && p@ == engines_dir@ + "/"@ + segment_check(engineId@)->Ok_0 + "/"@
                    + segment_check(version@)->Ok_0 + "/"@ + target_segment@,
            Err(LocalModelStorageError::EmptySegment { field }) =>
                (segment_check(engineId@) == Err::<Seq<char>, bool>(true) && field@ == "engineId"@)
                || (segment_check(engineId@) is Ok && segment_check(version@) == Err::<Seq<char>, bool>(true) && field@ == "version"@),
            Err(LocalModelStorageError::InvalidSegment { field, value }) =>
                (segment_check(engineId@) == Err::<Seq<char>, bool>(false) && field@ == "engineId"@ && value@ == trim(engineId@))
                || (segment_check(engineId@) is Ok && segment_check(version@) == Err::<Seq<char>, bool>(false) && field@ == "version"@ && value@ == trim(version@)),
        },
{
    let e = match validatedStorageSegment("engineId", engineId) {
        Ok(e) => e,
        Err(err) => return Err(err),
    };
    let v = match validatedStorageSegment("version", version) {
        Ok(v) => v,
        Err(err) => return Err(err),
    };
    let mut path = String::from_str(engines_dir);
    push_segment(&mut path, e.as_str());
    push_segment(&mut path, v.as_str());
    push_segment(&mut path, target_segment);
    Ok(path)
}

/// A segment that passes validation is returned trimmed and passes validation
/// again unchanged; `.` and `..` never pass.
pub proof fn law_segment_idempotent(value: Seq<char>)
    ensures
        segment_check(value) is Ok ==> segment_check(segment_check(value)->Ok_0) == segment_check(value),
        trim(value) == "."@ || trim(value) == ".."@ ==> segment_check(value) is Err,
{
    if segment_check(value) is Ok {
        let t = trim(value);
        crate::text::lemma_trim_of_trimmed(value);
        assert(trim(t) == t);
    }
}

} // verus!
