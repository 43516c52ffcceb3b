//! Reading the recognized text out of the Sherpa speech-to-text engine's
//! diagnostic output, whose last JSON line holds the result.
use vstd::prelude::*;
use crate::local_model_provider::LocalModelProviderError;
use crate::model::opt_view;
use crate::text::{split_char, split_on, trim, trim_string, views};

verus! {

/// What a line gives when read as JSON: nothing when it is not JSON, else
/// the value's `text` member when that is a string, and the value in its
/// compact JSON form.
pub uninterp spec fn json_line_record(line: Seq<char>) -> Option<(Option<Seq<char>>, Seq<char>)>;

/// Reads one line as a JSON value (`serde_json::from_str::<Value>`), and of
/// the value its string `text` member (`Value::get`, `Value::as_str`) and
/// its compact display (`Value::to_string`). The contract only names the
/// outcome; the JSON grammar and rendering are serde_json's.
#[verifier::external_body]
fn json_line(line: &str) -> (r: Option<(Option<String>, String)>)
    ensures
        match r {
            None => json_line_record(line@) is None,
            Some((t, s)) => json_line_record(line@) == Some((opt_view(t), s@)),
        },
{
    let value: serde_json::Value = match serde_json::from_str(line) {
        Ok(value) => value,
        Err(_) => return None,
    };
    let text = value.get("text").and_then(serde_json::Value::as_str).map(str::to_string);
    Some((text, value.to_string()))
}

/// A JSON line record as plain values.
pub open spec fn record_view(r: Option<(Option<String>, String)>) -> Option<(Option<Seq<char>>, Seq<char>)> {
    match r {
        None => None,
        Some((t, s)) => Some((opt_view(t), s@)),
    }
}

/// The last JSON record among the first `n` line readings.
pub open spec fn last_record(recs: Seq<Option<(Option<Seq<char>>, Seq<char>)>>, n: int) -> Option<(Option<Seq<char>>, Seq<char>)>
    decreases n,
{
    if n <= 0 {
        None
    } else {
        match recs[n - 1] {
            Some(r) => Some(r),
            None => last_record(recs, n - 1),
        }
    }
}

/// The recognized text from the readings of the output's lines: the last
/// JSON record's string `text`; without any record the whole output is
/// refused, and a last record without a string `text` is refused as it reads.
pub open spec fn stt_text(recs: Seq<Option<(Option<Seq<char>>, Seq<char>)>>, stderr: Seq<char>) -> Result<Seq<char>, Seq<char>> {
    match last_record(recs, recs.len() as int) {
        None => Err(stderr),
        Some((Some(t), _)) => Ok(t),
        Some((None, rendered)) => Err(rendered),
    }
}

/// Picks the recognized text out of the JSON readings of the engine's output lines.
pub fn sherpaSttText(records: &Vec<Option<(Option<String>, String)>>, stderr: &str) -> (r: Result<String, LocalModelProviderError>)
    ensures
        match stt_text(records@.map_values(|x: Option<(Option<String>, String)>| record_view(x)), stderr@) {
            Ok(t) => r matches Ok(s) && s@ == t,
            Err(e) => r matches Err(LocalModelProviderError::InvalidOutput(m)) && m@ == e,
        },
{
    let ghost recs = records@.map_values(|x: Option<(Option<String>, String)>| record_view(x));
    let mut i: usize = records.len();
    while i > 0
        invariant
            i <= records.len(),
            recs == records@.map_values(|x: Option<(Option<String>, String)>| record_view(x)),
            last_record(recs, records.len() as int) == last_record(recs, i as int),
        decreases i,
    {
        match &records[i - 1] {
            Some((Some(t), _)) => {
                assert(recs[i - 1] == record_view(records@[i - 1]));
                return Ok(t.clone());
            },
            Some((None, rendered)) => {
                assert(recs[i - 1] == record_view(records@[i - 1]));
                return Err(LocalModelProviderError::InvalidOutput(rendered.clone()));
            },
            None => {
                assert(recs[i - 1] == record_view(records@[i - 1]));
            },
        }
        i = i - 1;
    }
    Err(LocalModelProviderError::InvalidOutput(String::from_str(stderr)))
}

/// The JSON readings of the trimmed lines of an output.
pub open spec fn line_records(stderr: Seq<char>) -> Seq<Option<(Option<Seq<char>>, Seq<char>)>> {
    split_on(stderr, '\n').map_values(|l: Seq<char>| json_line_record(trim(l)))
}

/// Reads the recognized text from the engine's diagnostic output.
pub fn parseSherpaSttOutput(stderr: &str) -> (r: Result<String, LocalModelProviderError>)
    ensures
        match stt_text(line_records(stderr@), stderr@) {
            Ok(t) => r matches Ok(s) && s@ == t,
            Err(e) => r matches Err(LocalModelProviderError::InvalidOutput(m)) && m@ == e,
        },
{
    let lines = split_char(stderr, '\n');
    let mut records: Vec<Option<(Option<String>, String)>> = Vec::new();
    let mut i: usize = 0;
    while i < lines.len()
        invariant
            i <= lines.len(),
            views(lines@) == split_on(stderr@, '\n'),
            records@.len() == i,
            forall|k: int| 0 <= k < i ==> record_view(#[trigger] records@[k]) == json_line_record(trim(lines@[k]@)),
        decreases lines.len() - i,
    {
        let t = trim_string(lines[i].as_str());
        let rec = json_line(t.as_str());
        records.push(rec);
        i = i + 1;
    }
    proof {
        let a = records@.map_values(|x: Option<(Option<String>, String)>| record_view(x));
        let b = line_records(stderr@);
        assert(a.len() == b.len());
        assert forall|k: int| 0 <= k < a.len() implies a[k] == b[k] by {
            assert(views(lines@)[k] == lines@[k]@);
        }
        assert(a =~= b);
    }
    sherpaSttText(&records, stderr)
}

} // verus!
