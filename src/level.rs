//! Severity vocabulary: normalisation of explicit level tokens and detection
//! of a level inside free text.

use vstd::prelude::*;
use crate::text::{chars_of, contains_seq, is_infix, opt_view, same_text, upper_of, uppercase};

verus! {

/// The canonical level of an upper-cased token: the known aliases map to
/// `ERROR`, `WARN`, `INFO` or `DEBUG`; any other token is kept as it is.
pub open spec fn canonical_of(u: Seq<char>) -> Seq<char> {
    if u == "ERROR"@ || u == "ERR"@ || u == "FATAL"@ || u == "CRITICAL"@ || u == "CRIT"@ {
        "ERROR"@
    } else if u == "WARN"@ || u == "WARNING"@ {
        "WARN"@
    } else if u == "INFO"@ || u == "INFORMATION"@ {
        "INFO"@
    } else if u == "DEBUG"@ || u == "TRACE"@ || u == "VERBOSE"@ {
        "DEBUG"@
    } else {
        u
    }
}

/// The normalised level of a raw token: the token is upper-cased, then mapped
/// by `canonical_of`.
pub open spec fn normalized_level(token: Seq<char>) -> Seq<char> {
    canonical_of(upper_of(token))
}

/// Maps an already upper-cased token to its canonical level.
pub fn canonical_level(upper: &str) -> (r: String)
    ensures
        r@ == canonical_of(upper@),
{
    if same_text(upper, "ERROR") || same_text(upper, "ERR") || same_text(upper, "FATAL")
        || same_text(upper, "CRITICAL") || same_text(upper, "CRIT") {
        String::from_str("ERROR")
    } else if same_text(upper, "WARN") || same_text(upper, "WARNING") {
        String::from_str("WARN")
    } else if same_text(upper, "INFO") || same_text(upper, "INFORMATION") {
        String::from_str("INFO")
    } else if same_text(upper, "DEBUG") || same_text(upper, "TRACE") || same_text(
        upper,
        "VERBOSE",
    ) {
        String::from_str("DEBUG")
    } else {
        String::from_str(upper)
    }
}

/// Normalises a raw severity token, case-insensitively.
pub fn normalize_log_level(level: &str) -> (r: String)
    ensures
        r@ == normalized_level(level@),
{
    let upper = uppercase(level);
    canonical_level(upper.as_str())
}

/// The ordered table of substrings that reveal a level in upper-cased free
/// text, each with the level it stands for.
pub open spec fn level_patterns() -> Seq<(Seq<char>, Seq<char>)> {
    seq![
        ("[ERROR]"@, "ERROR"@),
        ("[ERR]"@, "ERROR"@),
        ("ERROR:"@, "ERROR"@),
        ("ERROR "@, "ERROR"@),
        (" ERROR "@, "ERROR"@),
        ("FATAL:"@, "ERROR"@),
        ("[FATAL]"@, "ERROR"@),
        ("[WARN]"@, "WARN"@),
        ("[WARNING]"@, "WARN"@),
        ("WARN:"@, "WARN"@),
        ("WARNING:"@, "WARN"@),
        (" WARN "@, "WARN"@),
        ("[INFO]"@, "INFO"@),
        ("INFO:"@, "INFO"@),
        (" INFO "@, "INFO"@),
        ("[DEBUG]"@, "DEBUG"@),
        ("DEBUG:"@, "DEBUG"@),
        (" DEBUG "@, "DEBUG"@),
        ("[TRACE]"@, "DEBUG"@),
    ]
}

/// The level of the first pattern of `pats` that occurs in `hay`, if any.
pub open spec fn first_pattern_level(hay: Seq<char>, pats: Seq<(Seq<char>, Seq<char>)>) -> Option<
    Seq<char>,
>
    decreases pats.len(),
{
    if pats.len() == 0 {
        None
    } else if is_infix(hay, pats[0].0) {
        Some(pats[0].1)
    } else {
        first_pattern_level(hay, pats.drop_first())
    }
}

/// The level detected in free text: the first pattern of the table that
/// occurs in the upper-cased text decides.
pub open spec fn detected_level(content: Seq<char>) -> Option<Seq<char>> {
    first_pattern_level(upper_of(content), level_patterns())
}

/// The pattern table as executable data.
fn pattern_table() -> (r: Vec<(&'static str, &'static str)>)
    ensures
        r@.len() == level_patterns().len(),
        forall|i: int|
            0 <= i < r@.len() ==> r@[i].0@ == level_patterns()[i].0 && r@[i].1@
                == level_patterns()[i].1,
{
    vec![
        ("[ERROR]", "ERROR"),
        ("[ERR]", "ERROR"),
        ("ERROR:", "ERROR"),
        ("ERROR ", "ERROR"),
        (" ERROR ", "ERROR"),
        ("FATAL:", "ERROR"),
        ("[FATAL]", "ERROR"),
        ("[WARN]", "WARN"),
        ("[WARNING]", "WARN"),
        ("WARN:", "WARN"),
        ("WARNING:", "WARN"),
        (" WARN ", "WARN"),
        ("[INFO]", "INFO"),
        ("INFO:", "INFO"),
        (" INFO ", "INFO"),
        ("[DEBUG]", "DEBUG"),
        ("DEBUG:", "DEBUG"),
        (" DEBUG ", "DEBUG"),
        ("[TRACE]", "DEBUG"),
    ]
}

/// Detects a level in already upper-cased text by the pattern table.
pub fn detect_in_upper(upper: &str) -> (r: Option<String>)
    ensures
        opt_view(r) == first_pattern_level(upper@, level_patterns()),
{
    let hay = chars_of(upper);
    let table = pattern_table();
    let mut i: usize = 0;
    assert(level_patterns().subrange(0, level_patterns().len() as int) =~= level_patterns());
    while i < table.len()
        invariant
            i <= table@.len(),
            hay@ == upper@,
            table@.len() == level_patterns().len(),
            forall|j: int|
                0 <= j < table@.len() ==> table@[j].0@ == level_patterns()[j].0 && table@[j].1@
                    == level_patterns()[j].1,
            first_pattern_level(upper@, level_patterns()) == first_pattern_level(
                upper@,
                level_patterns().subrange(i as int, level_patterns().len() as int),
            ),
        decreases table.len() - i,
    {
        let ghost rest = level_patterns().subrange(i as int, level_patterns().len() as int);
        assert(rest.drop_first() =~= level_patterns().subrange(
            i as int + 1,
            level_patterns().len() as int,
        ));
        let (pat, level) = table[i];
        let needle = chars_of(pat);
        if contains_seq(&hay, &needle) {
            return Some(String::from_str(level));
        }
        i = i + 1;
    }
    None
}

/// Detects a level in free text, case-insensitively.
pub fn detect_log_level(content: &str) -> (r: Option<String>)
    ensures
        opt_view(r) == detected_level(content@),
{
    let upper = uppercase(content);
    detect_in_upper(upper.as_str())
}

/// In upper-cased text that holds `[ERROR]`, the level is `ERROR`, whatever
/// other patterns the text holds: the table is read in order.
pub proof fn error_tag_wins(upper: Seq<char>)
    requires
        is_infix(upper, "[ERROR]"@),
    ensures
        first_pattern_level(upper, level_patterns()) == Some("ERROR"@),
{
}

} // verus!
