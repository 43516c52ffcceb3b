//! Decisions of the local model provider: model kinds, its errors, and the
//! Sherpa ONNX text-to-speech arguments built from a driver's declared files.
use vstd::prelude::*;
use crate::num::{decimal, i64_to_string, int_error_message, int_error_text, parse_i32, parse_int, IntErrorKind};
use crate::text::{chars_of, concat, has_prefix, join, join_strings, matches_at, split_char, split_on, str_eq, string_of_range, trim, trim_bounds, trim_string, views};

verus! {

/// What a local model does.
#[derive(Clone, Copy, Debug, PartialEq, Eq, Structural)]
pub enum LocalModelKind {
    SpeechToText,
    TextToSpeech,
    Chat,
    Embedding,
}

/// The stable display name of a model kind.
pub open spec fn kind_name(kind: LocalModelKind) -> Seq<char> {
    match kind {
        LocalModelKind::SpeechToText => "SpeechToText"@,
        LocalModelKind::TextToSpeech => "TextToSpeech"@,
        LocalModelKind::Chat => "Chat"@,
        LocalModelKind::Embedding => "Embedding"@,
    }
}

/// Returns the stable display name for one local model kind.
pub fn modelKindName(kind: &LocalModelKind) -> (r: &'static str)
    ensures
        r@ == kind_name(*kind),
{
    match kind {
        LocalModelKind::SpeechToText => "SpeechToText",
        LocalModelKind::TextToSpeech => "TextToSpeech",
        LocalModelKind::Chat => "Chat",
        LocalModelKind::Embedding => "Embedding",
    }
}

/// Why the local model provider refused a request.
#[derive(Clone, Debug, PartialEq, Eq)]
pub enum LocalModelProviderError {
    Registry(String),
    ModelNotInstalled(String, String),
    ModelKindMismatch { expected: String, actual: String },
    DriverMissing(String, String),
    EngineRequirementMissing(String, String),
    EngineNotInstalled(String, String, String),
    EngineExecutableMissing(String),
    RuntimeFileMissing(String),
    UnsupportedDriver(String),
    Process(String),
    InvalidOutput(String),
    InvalidRequest(String),
    Storage(String),
}

impl LocalModelProviderError {
    /// The error's text, as its display form shows it.
    pub open spec fn text(self) -> Seq<char> {
        match self {
            LocalModelProviderError::Registry(e) => "local model registry error: "@ + e@,
            LocalModelProviderError::ModelNotInstalled(id, v) => "local model is not installed: "@ + id@ + "@"@ + v@,
            LocalModelProviderError::ModelKindMismatch { expected, actual } => "local model kind mismatch: expected "@ + expected@ + ", got "@ + actual@,
            LocalModelProviderError::DriverMissing(id, v) => "local model has no executable driver metadata: "@ + id@ + "@"@ + v@,
            LocalModelProviderError::EngineRequirementMissing(id, v) => "local model has no engine requirement: "@ + id@ + "@"@ + v@,
            LocalModelProviderError::EngineNotInstalled(id, v, t) => "local engine is not installed: "@ + id@ + "@"@ + v@ + " for "@ + t@,
            LocalModelProviderError::EngineExecutableMissing(c) => "local engine executable is not declared: "@ + c@,
            LocalModelProviderError::RuntimeFileMissing(p) => "local runtime file is missing: "@ + p@,
            LocalModelProviderError::UnsupportedDriver(d) => "local driver does not support this request: "@ + d@,
            LocalModelProviderError::Process(e) => "local inference process failed: "@ + e@,
            LocalModelProviderError::InvalidOutput(e) => "local inference output is invalid: "@ + e@,
            LocalModelProviderError::InvalidRequest(e) => "local inference request is invalid: "@ + e@,
            LocalModelProviderError::Storage(e) => "local inference storage error: "@ + e@,
        }
    }

    /// The error's text.
    pub fn message(&self) -> (r: String)
        ensures
            r@ == self.text(),
    {
        match self {
            LocalModelProviderError::Registry(e) => concat("local model registry error: ", e),
            LocalModelProviderError::ModelNotInstalled(id, v) => {
                let mut r = concat("local model is not installed: ", id);
                r.append("@");
                r.append(v);
                r
            },
            LocalModelProviderError::ModelKindMismatch { expected, actual } => {
                let mut r = concat("local model kind mismatch: expected ", expected);
                r.append(", got ");
                r.append(actual);
                r
            },
            LocalModelProviderError::DriverMissing(id, v) => {
                let mut r = concat("local model has no executable driver metadata: ", id);
                r.append("@");
                r.append(v);
                r
            },
            LocalModelProviderError::EngineRequirementMissing(id, v) => {
                let mut r = concat("local model has no engine requirement: ", id);
                r.append("@");
                r.append(v);
                r
            },
            LocalModelProviderError::EngineNotInstalled(id, v, t) => {
                let mut r = concat("local engine is not installed: ", id);
                r.append("@");
                r.append(v);
                r.append(" for ");
                r.append(t);
                r
            },
            LocalModelProviderError::EngineExecutableMissing(c) => concat("local engine executable is not declared: ", c),
            LocalModelProviderError::RuntimeFileMissing(p) => concat("local runtime file is missing: ", p),
            LocalModelProviderError::UnsupportedDriver(d) => concat("local driver does not support this request: ", d),
            LocalModelProviderError::Process(e) => concat("local inference process failed: ", e),
            LocalModelProviderError::InvalidOutput(e) => concat("local inference output is invalid: ", e),
            LocalModelProviderError::InvalidRequest(e) => concat("local inference request is invalid: ", e),
            LocalModelProviderError::Storage(e) => concat("local inference storage error: ", e),
        }
    }
}

/// Checks a model's kind against the kind a request needs.
pub fn ensureModelKind(expected: LocalModelKind, actual: LocalModelKind) -> (r: Result<(), LocalModelProviderError>)
    ensures
        expected == actual ==> r is Ok,
        expected != actual ==> (r matches Err(LocalModelProviderError::ModelKindMismatch { expected: e, actual: a })
            && e@ == kind_name(expected) && a@ == kind_name(actual)),
{
    if expected != actual {
        return Err(LocalModelProviderError::ModelKindMismatch {
            expected: String::from_str(modelKindName(&expected)),
            actual: String::from_str(modelKindName(&actual)),
        });
    }
    Ok(())
}

/// `local <driver> speaker id must be between 0 and <count - 1>`.
pub open spec fn speaker_range_error(driver: Seq<char>, count: int) -> Seq<char> {
    "local "@ + driver + " speaker id must be between 0 and "@ + decimal(count - 1)
}

/// Validates a requested numeric TTS speaker id against a driver's speaker count.
pub fn validateSpeakerId(speakerId: i32, speakerCount: i32, driverName: &str) -> (r: Result<(), LocalModelProviderError>)
    requires
        speakerCount > i32::MIN,
    ensures
        0 <= speakerId < speakerCount ==> r is Ok,
        !(0 <= speakerId < speakerCount) ==> (r matches Err(LocalModelProviderError::InvalidRequest(m))
            && m@ == speaker_range_error(driverName@, speakerCount as int)),
{
    if speakerId < 0 || speakerId >= speakerCount {
        let mut text = concat("local ", driverName);
        text.append(" speaker id must be between 0 and ");
        let last = i64_to_string((speakerCount - 1) as i64);
        text.append(last.as_str());
        return Err(LocalModelProviderError::InvalidRequest(text));
    }
    Ok(())
}

/// The components of a `/`-separated relative or absolute path, as
/// `Path::components` reads it: a root first when the path starts with `/`,
/// empty parts and inner `.` parts dropped, a leading `.` kept.
pub open spec fn path_components(p: Seq<char>) -> Seq<Seq<char>> {
    let parts = split_on(p, '/');
    let rooted = p.len() > 0 && p[0] == '/';
    let lead: Seq<Seq<char>> = if rooted {
        seq!["/"@]
    } else if parts.len() > 1 && parts[0] == "."@ {
        seq!["."@]
    } else if parts.len() == 1 && parts[0] == "."@ {
        seq!["."@]
    } else {
        Seq::empty()
    };
    lead + parts.filter(|c: Seq<char>| c.len() > 0 && c != "."@)
}

/// `Path::starts_with`: the components of `base` begin those of `p`.
pub open spec fn path_starts_with(p: Seq<char>, base: Seq<char>) -> bool {
    let a = path_components(p);
    let b = path_components(base);
    b.len() <= a.len() && a.subrange(0, b.len() as int) == b
}

/// The components of a path.
fn components_of(p: &str) -> (r: Vec<String>)
    ensures
        views(r@) == path_components(p@),
{
    let parts = split_char(p, '/');
    let ghost ps = views(parts@);
    let mut out: Vec<String> = Vec::new();
    let chars = crate::text::chars_of(p);
    let rooted = chars.len() > 0 && chars[0] == '/';
    proof {
        crate::text::lemma_split_nonempty(p@, '/');
    }
    if rooted {
        out.push(String::from_str("/"));
        proof { reveal_strlit("/"); }
    } else if str_eq(parts[0].as_str(), ".") {
        out.push(String::from_str("."));
    }
    let ghost lead = views(out@);
    let ghost keep = |c: Seq<char>| c.len() > 0 && c != "."@;
    let mut i: usize = 0;
    proof {
        reveal_strlit(".");
        assert(ps.subrange(0, 0).filter(keep) =~= Seq::<Seq<char>>::empty());
        assert(views(out@) =~= lead + ps.subrange(0, 0).filter(keep));
    }
    while i < parts.len()
        invariant
            ps == views(parts@),
            i <= parts.len(),
            views(out@) =~= lead + ps.subrange(0, i as int).filter(keep),
            keep == (|c: Seq<char>| c.len() > 0 && c != "."@),
        decreases parts.len() - i,
    {
        let ghost before = out@;
        let part = &parts[i];
        let c = crate::text::chars_of(part.as_str());
        let keep_it = c.len() > 0 && !str_eq(part.as_str(), ".");
        proof {
            assert(ps.subrange(0, i + 1).drop_last() =~= ps.subrange(0, i as int));
            assert(ps.subrange(0, i + 1).last() == part@);
            ps.subrange(0, i as int).lemma_filter_push(part@, keep);
            assert(ps.subrange(0, i + 1) =~= ps.subrange(0, i as int).push(part@));
        }
        if keep_it {
            out.push(part.clone());
            proof {
                assert(views(out@) =~= views(before).push(part@));
            }
        }
        i = i + 1;
    }
    proof {
        assert(ps.subrange(0, ps.len() as int) =~= ps);
    }
    out
}

/// The Sherpa ONNX text-to-speech drivers, with the model files each declares.
#[derive(Clone, Debug)]
pub enum LocalModelDriver {
    SherpaOnnxVits { model: String, lexicon: String, tokens: String, ruleFsts: Vec<String>, ruleFars: Vec<String>, speakerCount: i32 },
    SherpaOnnxMatcha { acousticModel: String, vocoder: String, lexicon: String, tokens: String, ruleFsts: Vec<String>, ruleFars: Vec<String>, speakerCount: i32 },
    SherpaOnnxKitten { model: String, voices: String, tokens: String, dataDir: String, speakerCount: i32 },
    /// A driver of another engine, which has no text-to-speech arguments.
    Other,
}

/// One engine argument still to be resolved against the model directory: the
/// flag, and the declared relative paths that its value lists (joined by `,`).
#[derive(Clone, Debug)]
pub struct TtsArgumentPlan {
    pub flag: String,
    pub paths: Vec<String>,
    pub directory: bool,
}

/// A planned argument as plain values.
pub open spec fn plan_view(p: TtsArgumentPlan) -> (Seq<char>, Seq<Seq<char>>, bool) {
    (p.flag@, views(p.paths@), p.directory)
}

/// One file argument.
pub open spec fn file_arg(flag: Seq<char>, path: Seq<char>) -> (Seq<char>, Seq<Seq<char>>, bool) {
    (flag, seq![path], false)
}

/// The optional rule-file argument: present only when files are declared.
pub open spec fn rule_args(flag: Seq<char>, paths: Seq<Seq<char>>) -> Seq<(Seq<char>, Seq<Seq<char>>, bool)> {
    if paths.len() == 0 { Seq::empty() } else { seq![(flag, paths, false)] }
}

/// The arguments a driver needs, in engine order, or `None` for a driver that
/// has none.
pub open spec fn tts_plan(driver: LocalModelDriver) -> Option<Seq<(Seq<char>, Seq<Seq<char>>, bool)>> {
    match driver {
        LocalModelDriver::SherpaOnnxVits { model, lexicon, tokens, ruleFsts, ruleFars, .. } => Some(
            seq![file_arg("--vits-model"@, model@), file_arg("--vits-lexicon"@, lexicon@), file_arg("--vits-tokens"@, tokens@)]
                + rule_args("--tts-rule-fsts"@, views(ruleFsts@)) + rule_args("--tts-rule-fars"@, views(ruleFars@)),
        ),
        LocalModelDriver::SherpaOnnxMatcha { acousticModel, vocoder, lexicon, tokens, ruleFsts, ruleFars, .. } => Some(
            seq![
                file_arg("--matcha-acoustic-model"@, acousticModel@), file_arg("--matcha-vocoder"@, vocoder@),
                file_arg("--matcha-lexicon"@, lexicon@), file_arg("--matcha-tokens"@, tokens@),
            ] + rule_args("--tts-rule-fsts"@, views(ruleFsts@)) + rule_args("--tts-rule-fars"@, views(ruleFars@)),
        ),
        LocalModelDriver::SherpaOnnxKitten { model, voices, tokens, dataDir, .. } => Some(seq![
            file_arg("--kitten-model"@, model@), file_arg("--kitten-voices"@, voices@),
            file_arg("--kitten-tokens"@, tokens@), ("--kitten-data-dir"@, seq![dataDir@], true),
        ]),
        LocalModelDriver::Other => None,
    }
}

/// The driver's speaker count and display name.
pub open spec fn speaker_limits(driver: LocalModelDriver) -> Option<(int, Seq<char>)> {
    match driver {
        LocalModelDriver::SherpaOnnxVits { speakerCount, .. } => Some((speakerCount as int, "VITS"@)),
        LocalModelDriver::SherpaOnnxMatcha { speakerCount, .. } => Some((speakerCount as int, "Matcha"@)),
        LocalModelDriver::SherpaOnnxKitten { speakerCount, .. } => Some((speakerCount as int, "Kitten"@)),
        LocalModelDriver::Other => None,
    }
}

/// One planned single-file argument.
fn file_plan(flag: &str, path: &String) -> (r: TtsArgumentPlan)
    ensures
        plan_view(r) == file_arg(flag@, path@),
{
    let mut paths: Vec<String> = Vec::new();
    paths.push(path.clone());
    let r = TtsArgumentPlan { flag: String::from_str(flag), paths, directory: false };
    assert(views(r.paths@) =~= seq![path@]);
    r
}

/// Appends the rule-file argument when files are declared.
fn push_rule_plan(plan: &mut Vec<TtsArgumentPlan>, flag: &str, paths: &Vec<String>)
    ensures
        final(plan)@.map_values(|p: TtsArgumentPlan| plan_view(p))
            == old(plan)@.map_values(|p: TtsArgumentPlan| plan_view(p)) + rule_args(flag@, views(paths@)),
{
    let ghost before = plan@;
    if paths.len() > 0 {
        let mut copy: Vec<String> = Vec::new();
        let mut i: usize = 0;
        while i < paths.len()
            invariant
                i <= paths.len(),
                views(copy@) =~= views(paths@).subrange(0, i as int),
            decreases paths.len() - i,
        {
            let ghost before_copy = copy@;
            let item = paths[i].clone();
            copy.push(item);
            proof {
                assert(views(copy@) =~= views(before_copy).push(item@));
                assert(views(paths@).subrange(0, i + 1) =~= views(paths@).subrange(0, i as int).push(paths@[i as int]@));
            }
            i = i + 1;
        }
        assert(views(paths@).subrange(0, paths.len() as int) =~= views(paths@));
        let item = TtsArgumentPlan { flag: String::from_str(flag), paths: copy, directory: false };
        plan.push(item);
        assert(plan@.map_values(|p: TtsArgumentPlan| plan_view(p)) =~= before.map_values(|p: TtsArgumentPlan| plan_view(p)).push(plan_view(item)));
    } else {
        assert(rule_args(flag@, views(paths@)) =~= Seq::<(Seq<char>, Seq<Seq<char>>, bool)>::empty());
        assert(plan@.map_values(|p: TtsArgumentPlan| plan_view(p)) =~= before.map_values(|p: TtsArgumentPlan| plan_view(p)) + rule_args(flag@, views(paths@)));
    }
}

/// Plans the Sherpa ONNX TTS model arguments for one exact driver: checks the
/// requested speaker id, then lists each argument with the declared files it
/// names. A driver of another engine is refused with the engine's name.
pub fn sherpaTtsArgumentPlan(driver: &LocalModelDriver, speakerId: i32, engineName: &str) -> (r: Result<Vec<TtsArgumentPlan>, LocalModelProviderError>)
    requires
        speaker_limits(*driver) matches Some((count, _)) ==> count > i32::MIN,
    ensures
        match speaker_limits(*driver) {
            None => r matches Err(LocalModelProviderError::UnsupportedDriver(m)) && m@ == engineName@,
            Some((count, name)) => if 0 <= speakerId < count {
                r matches Ok(plan) && Some(plan@.map_values(|p: TtsArgumentPlan| plan_view(p))) == tts_plan(*driver)
            } else {
                r matches Err(LocalModelProviderError::InvalidRequest(m)) && m@ == speaker_range_error(name, count)
            },
        },
{
    let mut plan: Vec<TtsArgumentPlan> = Vec::new();
    match driver {
        LocalModelDriver::SherpaOnnxVits { model, lexicon, tokens, ruleFsts, ruleFars, speakerCount } => {
            if let Err(e) = validateSpeakerId(speakerId, *speakerCount, "VITS") {
                return Err(e);
            }
            plan.push(file_plan("--vits-model", model));
            plan.push(file_plan("--vits-lexicon", lexicon));
            plan.push(file_plan("--vits-tokens", tokens));
            let ghost head = plan@.map_values(|p: TtsArgumentPlan| plan_view(p));
            assert(head =~= seq![file_arg("--vits-model"@, model@), file_arg("--vits-lexicon"@, lexicon@), file_arg("--vits-tokens"@, tokens@)]);
            push_rule_plan(&mut plan, "--tts-rule-fsts", ruleFsts);
            push_rule_plan(&mut plan, "--tts-rule-fars", ruleFars);
        },
        LocalModelDriver::SherpaOnnxMatcha { acousticModel, vocoder, lexicon, tokens, ruleFsts, ruleFars, speakerCount } => {
            if let Err(e) = validateSpeakerId(speakerId, *speakerCount, "Matcha") {
                return Err(e);
            }
            plan.push(file_plan("--matcha-acoustic-model", acousticModel));
            plan.push(file_plan("--matcha-vocoder", vocoder));
            plan.push(file_plan("--matcha-lexicon", lexicon));
            plan.push(file_plan("--matcha-tokens", tokens));
            let ghost head = plan@.map_values(|p: TtsArgumentPlan| plan_view(p));
            assert(head =~= seq![
                file_arg("--matcha-acoustic-model"@, acousticModel@), file_arg("--matcha-vocoder"@, vocoder@),
                file_arg("--matcha-lexicon"@, lexicon@), file_arg("--matcha-tokens"@, tokens@),
            ]);
            push_rule_plan(&mut plan, "--tts-rule-fsts", ruleFsts);
            push_rule_plan(&mut plan, "--tts-rule-fars", ruleFars);
        },
        LocalModelDriver::SherpaOnnxKitten { model, voices, tokens, dataDir, speakerCount } => {
            if let Err(e) = validateSpeakerId(speakerId, *speakerCount, "Kitten") {
                return Err(e);
            }
            plan.push(file_plan("--kitten-model", model));
            plan.push(file_plan("--kitten-voices", voices));
            plan.push(file_plan("--kitten-tokens", tokens));
            let mut dir: Vec<String> = Vec::new();
            dir.push(dataDir.clone());
            let last = TtsArgumentPlan { flag: String::from_str("--kitten-data-dir"), paths: dir, directory: true };
            assert(views(last.paths@) =~= seq![dataDir@]);
            plan.push(last);
            assert(plan@.map_values(|p: TtsArgumentPlan| plan_view(p)) =~= seq![
                file_arg("--kitten-model"@, model@), file_arg("--kitten-voices"@, voices@),
                file_arg("--kitten-tokens"@, tokens@), ("--kitten-data-dir"@, seq![dataDir@], true),
            ]);
        },
        LocalModelDriver::Other => {
            return Err(LocalModelProviderError::UnsupportedDriver(String::from_str(engineName)));
        },
    }
    Ok(plan)
}

/// What the model directory holds at one planned path: the path's display
/// text, and whether it exists as the kind of entry that was planned.
#[derive(Clone, Debug)]
pub struct ResolvedPath {
    pub display: String,
    pub exists: bool,
}

/// A resolved path as plain values.
pub open spec fn resolved_view(r: ResolvedPath) -> (Seq<char>, bool) {
    (r.display@, r.exists)
}

/// Whether the manifest declares the planned path: a file exactly; a
/// directory when some declared file lies below its trimmed path.
pub open spec fn declared_path(directory: bool, rel: Seq<char>, declared: Seq<Seq<char>>) -> bool {
    if directory {
        exists|k: int| 0 <= k < declared.len() && path_starts_with(#[trigger] declared[k], trim(rel))
    } else {
        declared.contains(rel)
    }
}

/// Why one planned path cannot be used, if it cannot: undeclared paths are
/// named as planned, missing ones by where they were looked for.
pub open spec fn path_error(directory: bool, rel: Seq<char>, declared: Seq<Seq<char>>, r: (Seq<char>, bool)) -> Option<Seq<char>> {
    if !declared_path(directory, rel, declared) {
        Some(rel)
    } else if !r.1 {
        Some(r.0)
    } else {
        None
    }
}

/// The first unusable path among the first `m` of one argument.
pub open spec fn entry_error(directory: bool, paths: Seq<Seq<char>>, declared: Seq<Seq<char>>, res: Seq<(Seq<char>, bool)>, m: int) -> Option<Seq<char>>
    decreases m,
{
    if m <= 0 {
        None
    } else {
        match entry_error(directory, paths, declared, res, m - 1) {
            Some(e) => Some(e),
            None => path_error(directory, paths[m - 1], declared, res[m - 1]),
        }
    }
}

/// The engine arguments for the first `n` planned arguments, or the first
/// unusable path: each argument is its flag, `=`, and its paths joined by `,`.
pub open spec fn tts_arguments(
    plan: Seq<(Seq<char>, Seq<Seq<char>>, bool)>,
    declared: Seq<Seq<char>>,
    res: Seq<Seq<(Seq<char>, bool)>>,
    n: int,
) -> Result<Seq<Seq<char>>, Seq<char>>
    decreases n,
{
    if n <= 0 {
        Ok(Seq::empty())
    } else {
        match tts_arguments(plan, declared, res, n - 1) {
            Err(e) => Err(e),
            Ok(args) => {
                let p = plan[n - 1];
                match entry_error(p.2, p.1, declared, res[n - 1], p.1.len() as int) {
                    Some(e) => Err(e),
                    None => Ok(args.push(p.0 + "="@ + join(res[n - 1].map_values(|r: (Seq<char>, bool)| r.0), ","@))),
                }
            },
        }
    }
}

/// Whether some declared file lies below the directory `rel`.
fn declares_directory(declared: &Vec<String>, rel: &str) -> (r: bool)
    ensures
        r == declared_path(true, rel@, views(declared@)),
{
    let base = trim_string(rel);
    let base_parts = components_of(base.as_str());
    let mut k: usize = 0;
    while k < declared.len()
        invariant
            k <= declared.len(),
            views(base_parts@) == path_components(trim(rel@)),
            forall|j: int| 0 <= j < k ==> !path_starts_with(#[trigger] views(declared@)[j], trim(rel@)),
        decreases declared.len() - k,
    {
        let parts = components_of(declared[k].as_str());
        let mut same = base_parts.len() <= parts.len();
        let mut i: usize = 0;
        let ghost mut diff: int = -1;
        while same && i < base_parts.len()
            invariant
                base_parts.len() <= parts.len() || !same,
                i <= base_parts.len(),
                same ==> forall|t: int| 0 <= t < i ==> views(parts@)[t] == views(base_parts@)[t],
                !same && base_parts.len() <= parts.len() ==> 0 <= diff < base_parts.len() && views(parts@)[diff] != views(base_parts@)[diff],
            decreases base_parts.len() - i,
        {
            if !str_eq(parts[i].as_str(), base_parts[i].as_str()) {
                same = false;
                proof { diff = i as int; }
            }
            i = i + 1;
        }
        proof {
            let a = views(parts@);
            let b = views(base_parts@);
            assert(a == path_components(declared@[k as int]@));
            if same {
                assert(a.subrange(0, b.len() as int) =~= b);
            } else if b.len() <= a.len() {
                assert(a.subrange(0, b.len() as int)[diff] == a[diff]);
                assert(a.subrange(0, b.len() as int) != b);
            }
            assert(views(declared@)[k as int] == declared@[k as int]@);
        }
        if same {
            proof { assert(path_starts_with(views(declared@)[k as int], trim(rel@))); }
            return true;
        }
        k = k + 1;
    }
    false
}

/// The plain views of a plan.
pub open spec fn plan_views(plan: Seq<TtsArgumentPlan>) -> Seq<(Seq<char>, Seq<Seq<char>>, bool)> {
    plan.map_values(|p: TtsArgumentPlan| plan_view(p))
}

/// The plain views of what was found for each planned argument.
pub open spec fn resolved_views(res: Seq<Vec<ResolvedPath>>) -> Seq<Seq<(Seq<char>, bool)>> {
    res.map_values(|v: Vec<ResolvedPath>| v@.map_values(|r: ResolvedPath| resolved_view(r)))
}

/// A refusal while building the arguments is final.
proof fn lemma_tts_err_stays(
    plan: Seq<(Seq<char>, Seq<Seq<char>>, bool)>,
    declared: Seq<Seq<char>>,
    res: Seq<Seq<(Seq<char>, bool)>>,
    n: int,
    m: int,
)
    requires
        0 <= n <= m,
        tts_arguments(plan, declared, res, n) is Err,
    ensures
        tts_arguments(plan, declared, res, m) == tts_arguments(plan, declared, res, n),
    decreases m - n,
{
    if m > n {
        lemma_tts_err_stays(plan, declared, res, n, m - 1);
    }
}

/// Builds the Sherpa ONNX TTS engine arguments from a plan, the model's
/// declared files, and what the model directory holds at each planned path
/// (`resolved[i][j]` for the `j`-th path of the `i`-th argument): the first
/// undeclared or missing path is refused.
pub fn sherpaTtsArguments(
    plan: &Vec<TtsArgumentPlan>,
    declaredFiles: &Vec<String>,
    resolved: &Vec<Vec<ResolvedPath>>,
) -> (r: Result<Vec<String>, LocalModelProviderError>)
    requires
        resolved@.len() == plan@.len(),
        forall|i: int| 0 <= i < plan@.len() ==> (#[trigger] resolved@[i])@.len() == plan@[i].paths@.len(),
    ensures
        match r {
            Ok(args) => tts_arguments(plan_views(plan@), views(declaredFiles@), resolved_views(resolved@), plan@.len() as int)
                == Ok::<_, Seq<char>>(views(args@)),
            Err(LocalModelProviderError::RuntimeFileMissing(m)) =>
                tts_arguments(plan_views(plan@), views(declaredFiles@), resolved_views(resolved@), plan@.len() as int)
                    == Err::<Seq<Seq<char>>, _>(m@),
            Err(_) => false,
        },
{
    let ghost pv = plan_views(plan@);
    let ghost dv = views(declaredFiles@);
    let ghost rv = resolved_views(resolved@);
    let mut args: Vec<String> = Vec::new();
    let mut i: usize = 0;
    assert(views(args@) =~= Seq::<Seq<char>>::empty());
    while i < plan.len()
        invariant
            pv == plan_views(plan@),
            dv == views(declaredFiles@),
            rv == resolved_views(resolved@),
            resolved@.len() == plan@.len(),
            forall|i: int| 0 <= i < plan@.len() ==> (#[trigger] resolved@[i])@.len() == plan@[i].paths@.len(),
            i <= plan.len(),
            tts_arguments(pv, dv, rv, i as int) == Ok::<_, Seq<char>>(views(args@)),
        decreases plan.len() - i,
    {
        let entry = &plan[i];
        let found = &resolved[i];
        let ghost p = pv[i as int];
        let ghost rs = rv[i as int];
        assert(p == plan_view(*entry));
        assert(rs == found@.map_values(|r: ResolvedPath| resolved_view(r)));
        let mut displays: Vec<String> = Vec::new();
        let mut j: usize = 0;
        assert(views(displays@) =~= Seq::<Seq<char>>::empty());
        while j < entry.paths.len()
            invariant
                p == plan_view(*entry),
                rs == found@.map_values(|r: ResolvedPath| resolved_view(r)),
                found@.len() == entry.paths@.len(),
                j <= entry.paths.len(),
                entry_error(p.2, p.1, dv, rs, j as int) is None,
                views(displays@) =~= rs.subrange(0, j as int).map_values(|r: (Seq<char>, bool)| r.0),
                dv == views(declaredFiles@),
                pv == plan_views(plan@),
                rv == resolved_views(resolved@),
                i < plan@.len(),
                p == pv[i as int],
                rs == rv[i as int],
                tts_arguments(pv, dv, rv, i as int) == Ok::<_, Seq<char>>(views(args@)),
            decreases entry.paths.len() - j,
        {
            let rel = entry.paths[j].as_str();
            let declared = if entry.directory {
                declares_directory(declaredFiles, rel)
            } else {
                let mut any = false;
                let mut k: usize = 0;
                while k < declaredFiles.len()
                    invariant
                        k <= declaredFiles.len(),
                        dv == views(declaredFiles@),
                        any == exists|t: int| 0 <= t < k && dv[t] == rel@,
                    decreases declaredFiles.len() - k,
                {
                    assert(dv[k as int] == declaredFiles@[k as int]@);
                    if str_eq(declaredFiles[k].as_str(), rel) {
                        any = true;
                    }
                    k = k + 1;
                }
                proof {
                    if any {
                        let t = choose|t: int| 0 <= t < declaredFiles@.len() && dv[t] == rel@;
                        assert(dv.contains(rel@));
                    }
                    if dv.contains(rel@) {
                        let t = choose|t: int| 0 <= t < dv.len() && dv[t] == rel@;
                    }
                }
                any
            };
            assert(p.1[j as int] == rel@);
            assert(rs[j as int] == resolved_view(found@[j as int]));
            if !declared {
                proof {
                    assert(entry_error(p.2, p.1, dv, rs, j + 1) == Some(rel@));
                    lemma_entry_err_stays(p.2, p.1, dv, rs, j + 1, p.1.len() as int);
                    assert(tts_arguments(pv, dv, rv, i + 1) == Err::<Seq<Seq<char>>, Seq<char>>(rel@));
                    lemma_tts_err_stays(pv, dv, rv, i + 1, pv.len() as int);
                }
                return Err(LocalModelProviderError::RuntimeFileMissing(String::from_str(rel)));
            }
            if !found[j].exists {
                let shown = found[j].display.clone();
                proof {
                    assert(entry_error(p.2, p.1, dv, rs, j + 1) == Some(shown@));
                    lemma_entry_err_stays(p.2, p.1, dv, rs, j + 1, p.1.len() as int);
                    assert(tts_arguments(pv, dv, rv, i + 1) == Err::<Seq<Seq<char>>, Seq<char>>(shown@));
                    lemma_tts_err_stays(pv, dv, rv, i + 1, pv.len() as int);
                }
                return Err(LocalModelProviderError::RuntimeFileMissing(shown));
            }
            let ghost before = displays@;
            let shown = found[j].display.clone();
            displays.push(shown);
            proof {
                assert(views(displays@) =~= views(before).push(shown@));
                assert(rs.subrange(0, j + 1) =~= rs.subrange(0, j as int).push(rs[j as int]));
            }
            j = j + 1;
        }
        let mut text = String::from_str(entry.flag.as_str());
        text.append("=");
        let joined = join_strings(&displays, ",");
        text.append(joined.as_str());
        let ghost before_args = args@;
        args.push(text);
        proof {
            assert(rs.subrange(0, rs.len() as int) =~= rs);
            assert(views(args@) =~= views(before_args).push(text@));
        }
        i = i + 1;
    }
    Ok(args)
}

/// A refusal among an argument's paths is final.
proof fn lemma_entry_err_stays(directory: bool, paths: Seq<Seq<char>>, declared: Seq<Seq<char>>, res: Seq<(Seq<char>, bool)>, m: int, n: int)
    requires
        0 <= m <= n,
        entry_error(directory, paths, declared, res, m) is Some,
    ensures
        entry_error(directory, paths, declared, res, n) == entry_error(directory, paths, declared, res, m),
    decreases n - m,
{
    if n > m {
        lemma_entry_err_stays(directory, paths, declared, res, m, n - 1);
    }
}

/// An installed model resolved together with the engine that runs it and the
/// directories they occupy below the runtime root.
#[derive(Clone, Debug, PartialEq, Eq)]
pub struct ResolvedLocalModelRuntime {
    pub modelId: String,
    pub modelVersion: String,
    pub modelKind: LocalModelKind,
    pub engineId: String,
    pub engineVersion: String,
    pub modelDirectory: String,
    pub engineDirectory: String,
    pub engineRuntimeDirectory: String,
}

/// The part of a runtime storage path below the runtime root: the trimmed path
/// without the root prefix, refused as a storage error when the prefix is absent.
pub fn runtimeLayoutRelative(storagePath: &str, rootPrefix: &str) -> (r: Result<String, LocalModelProviderError>)
    ensures
        match r {
            Ok(rel) => has_prefix(trim(storagePath@), rootPrefix@)
                && rel@ == trim(storagePath@).subrange(rootPrefix@.len() as int, trim(storagePath@).len() as int),
            Err(e) => !has_prefix(trim(storagePath@), rootPrefix@)
                && (e matches LocalModelProviderError::Storage(p) && p@ == storagePath@),
        },
{
    let v = chars_of(storagePath);
    let (a, b) = trim_bounds(&v);
    let p = chars_of(rootPrefix);
    let t = string_of_range(&v, a, b);
    let tv = chars_of(t.as_str());
    if !matches_at(&tv, &p, 0) {
        return Err(LocalModelProviderError::Storage(String::from_str(storagePath)));
    }
    Ok(string_of_range(&tv, p.len(), tv.len()))
}

/// The declared executable of an engine for one capability, relative to the
/// engine's runtime directory; refused when the engine declares none.
pub fn engineExecutableRelative(relativePath: Option<&str>, capability: &str) -> (r: Result<String, LocalModelProviderError>)
    ensures
        match relativePath {
            Some(p) => (r matches Ok(s) && s@ == p@),
            None => (r matches Err(LocalModelProviderError::EngineExecutableMissing(c)) && c@ == capability@),
        },
{
    match relativePath {
        Some(p) => Ok(String::from_str(p)),
        None => Err(LocalModelProviderError::EngineExecutableMissing(String::from_str(capability))),
    }
}

/// The refusal of a request on a platform whose inference the host runs:
/// `recognition` tells speech recognition from speech synthesis.
pub fn hostExecutedPlatformError(recognition: bool) -> (r: LocalModelProviderError)
    ensures
        r matches LocalModelProviderError::UnsupportedDriver(m) && m@ == if recognition {
            "platform speech recognition is executed by LocalInferenceHost"@
        } else {
            "platform speech synthesis is executed by LocalInferenceHost"@
        },
{
    if recognition {
        LocalModelProviderError::UnsupportedDriver(String::from_str("platform speech recognition is executed by LocalInferenceHost"))
    } else {
        LocalModelProviderError::UnsupportedDriver(String::from_str("platform speech synthesis is executed by LocalInferenceHost"))
    }
}

/// The speaker a synthesis request asks for, or why the request is refused:
/// its output format (trimmed, in ASCII lowercase) must be `wav`, and its
/// voice (trimmed) a speaker number that fits an `i32`.
pub open spec fn tts_speaker(output_format: Seq<char>, voice: Seq<char>) -> Result<int, Seq<char>> {
    if crate::text::ascii_lower_seq(trim(output_format)) != "wav"@ {
        Err("local Sherpa TTS output format must be wav"@)
    } else {
        match parse_int(trim(voice), i32::MIN as int, i32::MAX as int, true) {
            Ok(n) => Ok(n),
            Err(k) => Err("local TTS voice must be a numeric speaker id: "@ + int_error_message(k)),
        }
    }
}

/// Checks a synthesis request's output format and reads its speaker id.
pub fn ttsRequestSpeaker(outputFormat: &str, voice: &str) -> (r: Result<i32, LocalModelProviderError>)
    ensures
        match r {
            Ok(n) => tts_speaker(outputFormat@, voice@) == Ok::<int, Seq<char>>(n as int),
            Err(e) => e matches LocalModelProviderError::InvalidRequest(m)
                && tts_speaker(outputFormat@, voice@) == Err::<int, Seq<char>>(m@),
        },
{
    let format = crate::text::to_ascii_lowercase(trim_string(outputFormat).as_str());
    if !str_eq(format.as_str(), "wav") {
        return Err(LocalModelProviderError::InvalidRequest(String::from_str("local Sherpa TTS output format must be wav")));
    }
    let v = trim_string(voice);
    match parse_i32(v.as_str()) {
        Ok(n) => Ok(n),
        Err(k) => Err(LocalModelProviderError::InvalidRequest(concat("local TTS voice must be a numeric speaker id: ", int_error_text(k).as_str()))),
    }
}

/// The Sherpa ONNX speech recognition arguments: the model files (already
/// resolved in the model directory), the model type, the fixed engine
/// settings, then the audio file.
pub open spec fn stt_arguments(encoder: Seq<char>, decoder: Seq<char>, joiner: Seq<char>, tokens: Seq<char>, model_type: Seq<char>, audio: Seq<char>) -> Seq<Seq<char>> {
    seq![
        "--encoder="@ + encoder,
        "--decoder="@ + decoder,
        "--joiner="@ + joiner,
        "--tokens="@ + tokens,
        "--model-type="@ + model_type,
        "--provider=cpu"@,
        "--num-threads=2"@,
        "--decoding-method=greedy_search"@,
        "--print-args=false"@,
        audio,
    ]
}

/// Builds the Sherpa ONNX speech recognition arguments.
pub fn sherpaSttArguments(encoder: &str, decoder: &str, joiner: &str, tokens: &str, modelType: &str, audioPath: &str) -> (r: Vec<String>)
    ensures
        views(r@) == stt_arguments(encoder@, decoder@, joiner@, tokens@, modelType@, audioPath@),
{
    let mut r: Vec<String> = Vec::new();
    r.push(concat("--encoder=", encoder));
    r.push(concat("--decoder=", decoder));
    r.push(concat("--joiner=", joiner));
    r.push(concat("--tokens=", tokens));
    r.push(concat("--model-type=", modelType));
    r.push(String::from_str("--provider=cpu"));
    r.push(String::from_str("--num-threads=2"));
    r.push(String::from_str("--decoding-method=greedy_search"));
    r.push(String::from_str("--print-args=false"));
    r.push(String::from_str(audioPath));
    assert(views(r@) =~= stt_arguments(encoder@, decoder@, joiner@, tokens@, modelType@, audioPath@));
    r
}

/// The leading Sherpa ONNX speech synthesis arguments: the speaker, the
/// speed (as the option's number is written), the fixed engine settings and
/// the output file; the driver's model arguments and the text follow them.
pub open spec fn tts_base_arguments(speaker: int, speed: Seq<char>, output: Seq<char>) -> Seq<Seq<char>> {
    seq![
        "--sid="@ + decimal(speaker),
        "--speed="@ + speed,
        "--provider=cpu"@,
        "--num-threads=2"@,
        "--print-args=false"@,
        "--output-filename="@ + output,
    ]
}

/// Builds the leading Sherpa ONNX speech synthesis arguments.
pub fn sherpaTtsBaseArguments(speakerId: i32, speed: &str, outputPath: &str) -> (r: Vec<String>)
    ensures
        views(r@) == tts_base_arguments(speakerId as int, speed@, outputPath@),
{
    let mut r: Vec<String> = Vec::new();
    r.push(concat("--sid=", i64_to_string(speakerId as i64).as_str()));
    r.push(concat("--speed=", speed));
    r.push(String::from_str("--provider=cpu"));
    r.push(String::from_str("--num-threads=2"));
    r.push(String::from_str("--print-args=false"));
    r.push(concat("--output-filename=", outputPath));
    assert(views(r@) =~= tts_base_arguments(speakerId as int, speed@, outputPath@));
    r
}

/// A text with every `\` written as `/`.
pub open spec fn forward_slashes(s: Seq<char>) -> Seq<char> {
    s.map_values(|c: char| if c == '\\' { '/' } else { c })
}

/// The temporary file a synthesis writes its audio to: below the runtime
/// root (written with forward slashes), named by the process id and a
/// sequence number.
pub open spec fn tts_output_path(root: Seq<char>, process_id: int, sequence: int) -> Seq<char> {
    forward_slashes(root) + "/temp/clean_on_exit/local-tts-"@ + decimal(process_id) + "-"@ + decimal(sequence) + ".wav"@
}

/// Names the temporary audio file of one synthesis.
pub fn localTtsOutputPath(runtimeRoot: &str, processId: u32, sequence: u64) -> (r: String)
    ensures
        r@ == tts_output_path(runtimeRoot@, processId as int, sequence as int),
{
    let v = chars_of(runtimeRoot);
    let mut w: Vec<char> = Vec::new();
    let mut i: usize = 0;
    while i < v.len()
        invariant
            i <= v.len(),
            v@ == runtimeRoot@,
            w@ =~= forward_slashes(v@.subrange(0, i as int)),
        decreases v.len() - i,
    {
        w.push(if v[i] == '\\' { '/' } else { v[i] });
        i = i + 1;
    }
    assert(v@.subrange(0, v.len() as int) =~= v@);
    let mut r = crate::text::string_of(&w);
    r.append("/temp/clean_on_exit/local-tts-");
    r.append(crate::num::u64_to_string(processId as u64).as_str());
    r.append("-");
    r.append(crate::num::u64_to_string(sequence).as_str());
    r.append(".wav");
    r
}

} // verus!
