//! Turning one raw log line into a `LogEntry`.

use vstd::prelude::*;
use crate::level::{detect_log_level, detected_level, normalize_log_level, normalized_level};
use crate::models::{EntryModel, LogEntry};
use crate::text::{opt_view, same_text};
use crate::timestamp::{extract_timestamp, timestamp_split};

verus! {

/// The members of a decoded JSON object, in the decoder's order: each key
/// with its value when that value is a string, `None` for any other value.
pub type Fields = Vec<(String, Option<String>)>;

/// The model of one member.
pub type FieldModel = (Seq<char>, Option<Seq<char>>);

/// The members that `serde_json` decodes from `text` when it is a JSON
/// object; `None` when it is not valid JSON or not an object.
pub uninterp spec fn json_object_fields(text: Seq<char>) -> Option<Seq<FieldModel>>;

/// The models of decoded members.
pub open spec fn fields_view(fs: Seq<(String, Option<String>)>) -> Seq<FieldModel> {
    fs.map_values(|f: (String, Option<String>)| (f.0@, opt_view(f.1)))
}

/// The model of an optional list of decoded members.
pub open spec fn opt_fields_view(o: Option<Fields>) -> Option<Seq<FieldModel>> {
    match o {
        Some(fs) => Some(fields_view(fs@)),
        None => None,
    }
}

/// Relies on `serde_json::from_str` into a `serde_json::Value`: an object
/// yields its members; any other value, or a decoding error, yields `None`.
#[verifier::external_body]
fn decode_object(text: &str) -> (r: Option<Fields>)
    ensures
        opt_fields_view(r) == json_object_fields(text@),
{
    match serde_json::from_str::<serde_json::Value>(text) {
        Ok(serde_json::Value::Object(m)) => Some(
            m.into_iter().map(|(k, v)| (k, match v {
                serde_json::Value::String(s) => Some(s),
                _ => None,
            })).collect(),
        ),
        _ => None,
    }
}

/// The value of the first member named `key`: `Some(None)` when that member
/// is not a string, `None` when there is no such member.
pub open spec fn member(fields: Seq<FieldModel>, key: Seq<char>) -> Option<Option<Seq<char>>>
    decreases fields.len(),
{
    if fields.len() == 0 {
        None
    } else if fields[0].0 == key {
        Some(fields[0].1)
    } else {
        member(fields.drop_first(), key)
    }
}

/// The string held by the member of the first of `keys` whose member holds a
/// string. A member that is absent or holds another kind of value is passed
/// over, and the next key is consulted.
pub open spec fn first_string(fields: Seq<FieldModel>, keys: Seq<Seq<char>>) -> Option<Seq<char>>
    decreases keys.len(),
{
    if keys.len() == 0 {
        None
    } else {
        match member(fields, keys[0]) {
            Some(Some(s)) => Some(s),
            _ => first_string(fields, keys.drop_first()),
        }
    }
}

/// Member names that carry the level, by priority.
pub open spec fn level_keys() -> Seq<Seq<char>> {
    seq!["level"@, "severity"@, "log_level"@, "lvl"@]
}

/// Member names that carry the message, by priority.
pub open spec fn message_keys() -> Seq<Seq<char>> {
    seq!["message"@, "msg"@, "log"@]
}

/// Member names that carry the timestamp, by priority.
pub open spec fn timestamp_keys() -> Seq<Seq<char>> {
    seq!["timestamp"@, "time"@, "ts"@, "@timestamp"@]
}

/// The entry built from the members of a structured line.
pub open spec fn structured_entry(
    fields: Seq<FieldModel>,
    fallback_timestamp: Option<Seq<char>>,
    pod: Seq<char>,
    container: Seq<char>,
    raw: Seq<char>,
) -> EntryModel {
    EntryModel {
        timestamp: match first_string(fields, timestamp_keys()) {
            Some(t) => Some(t),
            None => fallback_timestamp,
        },
        level: match first_string(fields, level_keys()) {
            Some(l) => Some(normalized_level(l)),
            None => None,
        },
        message: match first_string(fields, message_keys()) {
            Some(m) => m,
            None => raw,
        },
        raw: raw,
        is_json: true,
        pod_name: pod,
        container_name: container,
    }
}

/// The entry built from a plain-text line: its text is the message, or the
/// raw line when the text is empty.
pub open spec fn plain_entry(
    content: Seq<char>,
    timestamp: Option<Seq<char>>,
    pod: Seq<char>,
    container: Seq<char>,
    raw: Seq<char>,
) -> EntryModel {
    EntryModel {
        timestamp: timestamp,
        level: detected_level(content),
        message: if content.len() == 0 {
            raw
        } else {
            content
        },
        raw: raw,
        is_json: false,
        pod_name: pod,
        container_name: container,
    }
}

/// The entry for a raw line: its timestamp is split off; the rest is read as
/// a structured line when it decodes to a JSON object, as plain text
/// otherwise.
pub open spec fn parsed_line(line: Seq<char>, pod: Seq<char>, container: Seq<char>) -> EntryModel {
    let (ts, rest) = timestamp_split(line);
    match json_object_fields(rest) {
        Some(fields) => structured_entry(fields, ts, pod, container, line),
        None => plain_entry(rest, ts, pod, container, line),
    }
}

/// Position of the first member named `key`.
fn find_member(fields: &Fields, key: &str) -> (r: Option<usize>)
    ensures
        match r {
            Some(i) => i < fields@.len() && member(fields_view(fields@), key@) == Some(
                opt_view(fields@[i as int].1),
            ),
            None => member(fields_view(fields@), key@) is None,
        },
{
    let ghost fv = fields_view(fields@);
    let mut i: usize = 0;
    assert(fv.subrange(0, fv.len() as int) =~= fv);
    while i < fields.len()
        invariant
            i <= fields@.len(),
            fv == fields_view(fields@),
            member(fv, key@) == member(fv.subrange(i as int, fv.len() as int), key@),
        decreases fields.len() - i,
    {
        let ghost rest = fv.subrange(i as int, fv.len() as int);
        assert(rest.drop_first() =~= fv.subrange(i as int + 1, fv.len() as int));
        assert(rest[0] == fv[i as int]);
        if same_text(fields[i].0.as_str(), key) {
            return Some(i);
        }
        i = i + 1;
    }
    None
}

/// The string held by the member of the first of `keys` that holds one.
pub fn first_string_member(fields: &Fields, keys: &Vec<&str>) -> (r: Option<String>)
    ensures
        opt_view(r) == first_string(fields_view(fields@), keys@.map_values(|k: &str| k@)),
{
    let ghost fv = fields_view(fields@);
    let ghost ks = keys@.map_values(|k: &str| k@);
    let mut i: usize = 0;
    assert(ks.subrange(0, ks.len() as int) =~= ks);
    while i < keys.len()
        invariant
            i <= keys@.len(),
            fv == fields_view(fields@),
            ks == keys@.map_values(|k: &str| k@),
            first_string(fv, ks) == first_string(fv, ks.subrange(i as int, ks.len() as int)),
        decreases keys.len() - i,
    {
        let ghost rest = ks.subrange(i as int, ks.len() as int);
        assert(rest.drop_first() =~= ks.subrange(i as int + 1, ks.len() as int));
        match find_member(fields, keys[i]) {
            Some(j) => {
                if let Some(s) = &fields[j].1 {
                    return Some(s.clone());
                }
            },
            None => {},
        }
        i = i + 1;
    }
    None
}

/// Builds the entry of a structured line from its decoded members.
pub fn parse_json_log(
    fields: &Fields,
    fallback_timestamp: Option<String>,
    pod_name: &str,
    container_name: &str,
    raw: &str,
) -> (e: LogEntry)
    ensures
        e@ == structured_entry(
            fields_view(fields@),
            opt_view(fallback_timestamp),
            pod_name@,
            container_name@,
            raw@,
        ),
{
    let level_names: Vec<&str> = vec!["level", "severity", "log_level", "lvl"];
    let message_names: Vec<&str> = vec!["message", "msg", "log"];
    let timestamp_names: Vec<&str> = vec!["timestamp", "time", "ts", "@timestamp"];
    assert(level_names@.map_values(|k: &str| k@) =~= level_keys());
    assert(message_names@.map_values(|k: &str| k@) =~= message_keys());
    assert(timestamp_names@.map_values(|k: &str| k@) =~= timestamp_keys());

    let level = match first_string_member(fields, &level_names) {
        Some(l) => Some(normalize_log_level(l.as_str())),
        None => None,
    };
    let message = match first_string_member(fields, &message_names) {
        Some(m) => m,
        None => String::from_str(raw),
    };
    let timestamp = match first_string_member(fields, &timestamp_names) {
        Some(t) => Some(t),
        None => fallback_timestamp,
    };
    LogEntry {
        timestamp,
        level,
        message,
        raw: String::from_str(raw),
        is_json: true,
        pod_name: String::from_str(pod_name),
        container_name: String::from_str(container_name),
    }
}

/// Builds the entry of a plain-text line, detecting its level in the text.
pub fn parse_plain_log(
    content: &str,
    timestamp: Option<String>,
    pod_name: &str,
    container_name: &str,
    raw: &str,
) -> (e: LogEntry)
    ensures
        e@ == plain_entry(content@, opt_view(timestamp), pod_name@, container_name@, raw@),
{
    let level = detect_log_level(content);
    let message = if content.is_empty() {
        String::from_str(raw)
    } else {
        String::from_str(content)
    };
    LogEntry {
        timestamp,
        level,
        message,
        raw: String::from_str(raw),
        is_json: false,
        pod_name: String::from_str(pod_name),
        container_name: String::from_str(container_name),
    }
}

/// Classifies one raw line of a stream.
pub fn parse_log_line(line: &str, pod_name: &str, container_name: &str) -> (e: LogEntry)
    ensures
        e@ == parsed_line(line@, pod_name@, container_name@),
{
    let (timestamp, rest) = extract_timestamp(line);
    match decode_object(rest) {
        Some(fields) => parse_json_log(&fields, timestamp, pod_name, container_name, line),
        None => parse_plain_log(rest, timestamp, pod_name, container_name, line),
    }
}

/// Parsing is a function of the line and its provenance: two parses of the
/// same line give the same entry.
pub proof fn parse_is_deterministic(
    line: Seq<char>,
    pod: Seq<char>,
    container: Seq<char>,
    a: EntryModel,
    b: EntryModel,
)
    requires
        a == parsed_line(line, pod, container),
        b == parsed_line(line, pod, container),
    ensures
        a == b,
{
}

/// Whatever path parsing takes, the entry keeps the raw line exactly, and
/// its provenance.
pub proof fn parse_keeps_raw(line: Seq<char>, pod: Seq<char>, container: Seq<char>)
    ensures
        parsed_line(line, pod, container).raw == line,
        parsed_line(line, pod, container).pod_name == pod,
        parsed_line(line, pod, container).container_name == container,
{
}

} // verus!
