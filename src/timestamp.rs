//! Recognition of the timestamp that a log source may put before each line.

use vstd::prelude::*;
use vstd::utf8::encode_utf8;
use crate::text::{chars_of, contains_char, find_char, first_index_of, opt_view};

verus! {

/// Whether `ts` has the shape of an RFC 3339 instant: a `T` between date and
/// time, and either a trailing `Z` or an offset introduced by `+`.
pub open spec fn looks_like_instant(ts: Seq<char>) -> bool {
    ts.contains('T') && ((ts.len() > 0 && ts.last() == 'Z') || ts.contains('+'))
}

/// The split of a raw line into its leading timestamp, if it has one, and the
/// rest. A line qualifies when its UTF-8 encoding is longer than 30 bytes,
/// it has `-` as its 5th and 8th characters, it holds a space, and the text
/// before the first space looks like an instant. The rest is then what follows that space;
/// otherwise there is no timestamp and the rest is the whole line.
pub open spec fn timestamp_split(line: Seq<char>) -> (Option<Seq<char>>, Seq<char>) {
    let i = first_index_of(line, ' ');
    if encode_utf8(line).len() > 30 && line.len() > 7 && line[4] == '-' && line[7] == '-'
        && i >= 0
        && looks_like_instant(line.subrange(0, i)) {
        (Some(line.subrange(0, i)), line.subrange(i + 1, line.len() as int))
    } else {
        (None, line)
    }
}

/// Splits a leading timestamp off a raw line.
pub fn extract_timestamp(line: &str) -> (r: (Option<String>, &str))
    ensures
        opt_view(r.0) == timestamp_split(line@).0,
        r.1@ == timestamp_split(line@).1,
{
    let v = chars_of(line);
    let n = v.len();
    let byte_len = line.as_bytes().len();
    assert(byte_len == encode_utf8(line@).len());
    if byte_len > 30 && n > 7 && v[4] == '-' && v[7] == '-' {
        if let Some(i) = find_char(&v, ' ') {
            let has_t = contains_char(&v, 0, i, 'T');
            let has_plus = contains_char(&v, 0, i, '+');
            let ends_z = i > 0 && v[i - 1] == 'Z';
            proof {
                let ts = v@.subrange(0, i as int);
                if i > 0 {
                    assert(ts.last() == v@[i - 1]);
                }
            }
            if has_t && (ends_z || has_plus) {
                let ts = String::from_str(line.substring_char(0, i));
                let rest = line.substring_char(i + 1, n);
                return (Some(ts), rest);
            }
        }
    }
    (None, line)
}

} // verus!
