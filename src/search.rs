//! Filtering of classified entries and assembly of a search over many
//! (pod, container) streams.

use vstd::prelude::*;
use crate::models::{entries_view, EntryModel, LogEntry, LogSearchResult, ResultModel};
use crate::parser::{parse_log_line, parsed_line};
use crate::text::{
    chars_of, contains_seq, is_infix, lines_of, lower_of, lowercase, opt_view,
    same_text, split_lines, upper_of, uppercase,
};

verus! {

/// The decision of the filter on already case-folded values: the keyword,
/// when given, occurs in the message or in the raw line; the wanted level,
/// when given, equals the entry's level, and an entry without a level never
/// matches it.
pub open spec fn folded_match(
    message_lower: Seq<char>,
    raw_lower: Seq<char>,
    level_upper: Option<Seq<char>>,
    keyword_lower: Option<Seq<char>>,
    wanted_upper: Option<Seq<char>>,
) -> bool {
    &&& match keyword_lower {
        None => true,
        Some(k) => is_infix(message_lower, k) || is_infix(raw_lower, k),
    }
    &&& match wanted_upper {
        None => true,
        Some(w) => level_upper == Some(w),
    }
}

/// Upper-casing under an option.
pub open spec fn opt_upper(o: Option<Seq<char>>) -> Option<Seq<char>> {
    match o {
        Some(s) => Some(upper_of(s)),
        None => None,
    }
}

/// Lower-casing under an option.
pub open spec fn opt_lower(o: Option<Seq<char>>) -> Option<Seq<char>> {
    match o {
        Some(s) => Some(lower_of(s)),
        None => None,
    }
}

/// Whether an entry passes the keyword and level filters: the keyword is
/// compared case-insensitively with the message and with the raw line, the
/// level case-insensitively and exactly.
pub open spec fn entry_matches(
    e: EntryModel,
    keyword: Option<Seq<char>>,
    level: Option<Seq<char>>,
) -> bool {
    folded_match(
        lower_of(e.message),
        lower_of(e.raw),
        opt_upper(e.level),
        opt_lower(keyword),
        opt_upper(level),
    )
}

/// An entry without a level never passes a level filter.
pub proof fn absent_level_never_matches(
    e: EntryModel,
    keyword: Option<Seq<char>>,
    wanted: Seq<char>,
)
    requires
        e.level is None,
    ensures
        !entry_matches(e, keyword, Some(wanted)),
{
}

/// `entry_matches` as a predicate.
pub open spec fn match_pred(keyword: Option<Seq<char>>, level: Option<Seq<char>>) -> spec_fn(
    EntryModel,
) -> bool {
    |e: EntryModel| entry_matches(e, keyword, level)
}

/// Parsing as a function of the line, for one stream.
pub open spec fn parse_fn(pod: Seq<char>, container: Seq<char>) -> spec_fn(Seq<char>) -> EntryModel {
    |l: Seq<char>| parsed_line(l, pod, container)
}

/// The entries of a stream's text, one per line, in order.
pub open spec fn stream_entries(pod: Seq<char>, container: Seq<char>, text: Seq<char>) -> Seq<
    EntryModel,
> {
    lines_of(text).map_values(parse_fn(pod, container))
}

/// The entries of a stream's text that pass the filters, in order.
pub open spec fn stream_matches(
    pod: Seq<char>,
    container: Seq<char>,
    text: Seq<char>,
    keyword: Option<Seq<char>>,
    level: Option<Seq<char>>,
) -> Seq<EntryModel> {
    stream_entries(pod, container, text).filter(match_pred(keyword, level))
}

/// The filter's decision on case-folded values.
pub fn matches_folded(
    message_lower: &str,
    raw_lower: &str,
    level_upper: Option<&str>,
    keyword_lower: Option<&str>,
    wanted_upper: Option<&str>,
) -> (r: bool)
    ensures
        r == folded_match(
            message_lower@,
            raw_lower@,
            match level_upper {
                Some(s) => Some(s@),
                None => None,
            },
            match keyword_lower {
                Some(s) => Some(s@),
                None => None,
            },
            match wanted_upper {
                Some(s) => Some(s@),
                None => None,
            },
        ),
{
    let keyword_ok = match keyword_lower {
        None => true,
        Some(k) => {
            let needle = chars_of(k);
            contains_seq(&chars_of(message_lower), &needle) || contains_seq(
                &chars_of(raw_lower),
                &needle,
            )
        },
    };
    let level_ok = match wanted_upper {
        None => true,
        Some(w) => match level_upper {
            Some(l) => same_text(l, w),
            None => false,
        },
    };
    keyword_ok && level_ok
}

/// Whether an entry passes the keyword and level filters.
pub fn entry_matches_filters(
    entry: &LogEntry,
    keyword: &Option<String>,
    level: &Option<String>,
) -> (r: bool)
    ensures
        r == entry_matches(entry@, opt_view(*keyword), opt_view(*level)),
{
    let keyword_ok = match keyword {
        None => true,
        Some(k) => {
            let kw = lowercase(k.as_str());
            let message = lowercase(entry.message.as_str());
            let raw = lowercase(entry.raw.as_str());
            matches_folded(message.as_str(), raw.as_str(), None, Some(kw.as_str()), None)
        },
    };
    let level_ok = match level {
        None => true,
        Some(w) => match &entry.level {
            Some(l) => {
                let lu = uppercase(l.as_str());
                let wu = uppercase(w.as_str());
                matches_folded("", "", Some(lu.as_str()), None, Some(wu.as_str()))
            },
            None => false,
        },
    };
    keyword_ok && level_ok
}

/// The entries that pass the keyword and level filters, in their order.
pub fn filter_entries(
    entries: &Vec<LogEntry>,
    keyword: &Option<String>,
    level: &Option<String>,
) -> (r: Vec<LogEntry>)
    ensures
        entries_view(r@) == entries_view(entries@).filter(
            match_pred(opt_view(*keyword), opt_view(*level)),
        ),
{
    let ghost pred = match_pred(opt_view(*keyword), opt_view(*level));
    let mut out: Vec<LogEntry> = Vec::new();
    let mut i: usize = 0;
    assert(entries_view(entries@).subrange(0, 0).filter(pred) =~= entries_view(out@));
    while i < entries.len()
        invariant
            i <= entries.len(),
            pred == match_pred(opt_view(*keyword), opt_view(*level)),
            entries_view(out@) == entries_view(entries@).subrange(0, i as int).filter(pred),
        decreases entries.len() - i,
    {
        let ghost all = entries_view(entries@);
        assert(all.subrange(0, i + 1).drop_last() =~= all.subrange(0, i as int));
        assert(all.subrange(0, i + 1).last() == entries@[i as int]@);
        let keep = entry_matches_filters(&entries[i], keyword, level);
        proof {
            reveal(Seq::filter);
        }
        assert(pred(entries@[i as int]@) == keep);
        assert(all.subrange(0, i + 1).filter(pred) == if keep {
            all.subrange(0, i as int).filter(pred).push(entries@[i as int]@)
        } else {
            all.subrange(0, i as int).filter(pred)
        });
        if keep {
            let ghost before = entries_view(out@);
            out.push(entries[i].duplicate());
            assert(entries_view(out@) =~= before.push(entries@[i as int]@));
        }
        i = i + 1;
    }
    assert(entries_view(entries@).subrange(0, i as int) =~= entries_view(entries@));
    out
}

/// The entries of a stream's text, one per line.
pub fn parse_log_text(text: &str, pod_name: &str, container_name: &str) -> (r: Vec<LogEntry>)
    ensures
        entries_view(r@) == stream_entries(pod_name@, container_name@, text@),
{
    let lines = split_lines(text);
    let ghost ls = lines@.map_values(|l: String| l@);
    let mut out: Vec<LogEntry> = Vec::new();
    let mut i: usize = 0;
    while i < lines.len()
        invariant
            i <= lines.len(),
            ls == lines@.map_values(|l: String| l@),
            ls == lines_of(text@),
            entries_view(out@) == ls.subrange(0, i as int).map_values(
                parse_fn(pod_name@, container_name@),
            ),
        decreases lines.len() - i,
    {
        let e = parse_log_line(lines[i].as_str(), pod_name, container_name);
        let ghost before = entries_view(out@);
        out.push(e);
        assert(entries_view(out@) =~= before.push(e@));
        assert(ls.subrange(0, i + 1).map_values(parse_fn(pod_name@, container_name@))
            =~= ls.subrange(0, i as int).map_values(parse_fn(pod_name@, container_name@)).push(
            e@,
        ));
        i = i + 1;
    }
    assert(ls.subrange(0, i as int) =~= ls);
    out
}

/// The container whose logs are read: the requested one, else the first
/// container of the pod's spec, if any.
pub fn pick_container(requested: &Option<String>, spec_containers: &Vec<String>) -> (r: Option<
    String,
>)
    ensures
        opt_view(r) == match *requested {
            Some(c) => Some(c@),
            None => if spec_containers@.len() > 0 {
                Some(spec_containers@[0]@)
            } else {
                None
            },
        },
{
    match requested {
        Some(c) => Some(c.clone()),
        None => if spec_containers.len() > 0 {
            Some(spec_containers[0].clone())
        } else {
            None
        },
    }
}

/// What the log source gave for one (pod, container) stream of a search:
/// the text of its recent lines, or `None` when fetching it failed.
pub struct StreamFetch {
    pub pod_name: String,
    pub container_name: String,
    pub logs: Option<String>,
}

/// The mathematical content of a `StreamFetch`.
pub struct StreamModel {
    pub pod_name: Seq<char>,
    pub container_name: Seq<char>,
    pub logs: Option<Seq<char>>,
}

impl View for StreamFetch {
    type V = StreamModel;

    open spec fn view(&self) -> StreamModel {
        StreamModel {
            pod_name: self.pod_name@,
            container_name: self.container_name@,
            logs: opt_view(self.logs),
        }
    }
}

/// The models of a sequence of fetched streams.
pub open spec fn streams_view(ss: Seq<StreamFetch>) -> Seq<StreamModel> {
    ss.map_values(|s: StreamFetch| s@)
}

/// The result that one stream contributes: none when its fetch failed or
/// when no entry passes the filters; otherwise its matching entries in
/// order, with their count. A stream whose matches are too many for the
/// result's counter is passed over like a failed fetch.
pub open spec fn stream_result(
    s: StreamModel,
    keyword: Option<Seq<char>>,
    level: Option<Seq<char>>,
) -> Option<ResultModel> {
    match s.logs {
        None => None,
        Some(text) => {
            let es = stream_matches(s.pod_name, s.container_name, text, keyword, level);
            if es.len() == 0 || es.len() > i32::MAX {
                None
            } else {
                Some(
                    ResultModel {
                        pod_name: s.pod_name,
                        container_name: s.container_name,
                        total_matches: es.len() as int,
                        entries: es,
                    },
                )
            }
        },
    }
}

/// The results of a search over streams taken in discovery order.
pub open spec fn search_results(
    ss: Seq<StreamModel>,
    keyword: Option<Seq<char>>,
    level: Option<Seq<char>>,
) -> Seq<ResultModel>
    decreases ss.len(),
{
    if ss.len() == 0 {
        seq![]
    } else {
        let prev = search_results(ss.drop_last(), keyword, level);
        match stream_result(ss.last(), keyword, level) {
            Some(r) => prev.push(r),
            None => prev,
        }
    }
}

/// The models of a sequence of results.
pub open spec fn results_view(rs: Seq<LogSearchResult>) -> Seq<ResultModel> {
    rs.map_values(|r: LogSearchResult| r@)
}

/// The result of one fetched stream, if it has any matching entry.
pub fn search_stream(
    stream: &StreamFetch,
    keyword: &Option<String>,
    level: &Option<String>,
) -> (r: Option<LogSearchResult>)
    ensures
        match r {
            Some(res) => stream_result(stream@, opt_view(*keyword), opt_view(*level)) == Some(
                res@,
            ) && res.wf(),
            None => stream_result(stream@, opt_view(*keyword), opt_view(*level)) is None,
        },
{
    match &stream.logs {
        None => None,
        Some(text) => {
            let all = parse_log_text(
                text.as_str(),
                stream.pod_name.as_str(),
                stream.container_name.as_str(),
            );
            let entries = filter_entries(&all, keyword, level);
            assert(entries_view(entries@).len() == entries@.len());
            if entries.len() == 0 || entries.len() > i32::MAX as usize {
                None
            } else {
                let count = entries.len() as i32;
                Some(
                    LogSearchResult {
                        pod_name: stream.pod_name.clone(),
                        container_name: stream.container_name.clone(),
                        total_matches: count,
                        entries,
                    },
                )
            }
        },
    }
}

/// Assembles the results of a search from its fetched streams: a failed
/// fetch is skipped, a stream without matches contributes nothing, and the
/// results keep the streams' order.
pub fn assemble_search(
    streams: &Vec<StreamFetch>,
    keyword: &Option<String>,
    level: &Option<String>,
) -> (r: Vec<LogSearchResult>)
    ensures
        results_view(r@) == search_results(
            streams_view(streams@),
            opt_view(*keyword),
            opt_view(*level),
        ),
        forall|i: int| 0 <= i < r@.len() ==> (#[trigger] r@[i]).wf(),
{
    let ghost sv = streams_view(streams@);
    let ghost kw = opt_view(*keyword);
    let ghost lv = opt_view(*level);
    let mut out: Vec<LogSearchResult> = Vec::new();
    let mut i: usize = 0;
    assert(sv.subrange(0, 0) =~= Seq::<StreamModel>::empty());
    assert(results_view(out@) =~= Seq::<ResultModel>::empty());
    while i < streams.len()
        invariant
            i <= streams.len(),
            sv == streams_view(streams@),
            kw == opt_view(*keyword),
            lv == opt_view(*level),
            results_view(out@) == search_results(sv.subrange(0, i as int), kw, lv),
            forall|j: int| 0 <= j < out@.len() ==> (#[trigger] out@[j]).wf(),
        decreases streams.len() - i,
    {
        assert(sv.subrange(0, i + 1).drop_last() =~= sv.subrange(0, i as int));
        assert(sv.subrange(0, i + 1).last() == sv[i as int]);
        assert(sv[i as int] == streams@[i as int]@);
        let found = search_stream(&streams[i], keyword, level);
        match found {
            Some(res) => {
                let ghost before = results_view(out@);
                let ghost m = res@;
                out.push(res);
                assert(results_view(out@) =~= before.push(m));
            },
            None => {},
        }
        i = i + 1;
    }
    assert(sv.subrange(0, i as int) =~= sv);
    out
}

/// Searching a concatenation of stream lists gives the concatenation of
/// their results.
pub proof fn lemma_search_concat(
    a: Seq<StreamModel>,
    b: Seq<StreamModel>,
    keyword: Option<Seq<char>>,
    level: Option<Seq<char>>,
)
    ensures
        search_results(a + b, keyword, level) == search_results(a, keyword, level)
            + search_results(b, keyword, level),
    decreases b.len(),
{
    if b.len() == 0 {
        assert(a + b =~= a);
        assert(search_results(a, keyword, level) + seq![] =~= search_results(a, keyword, level));
    } else {
        assert((a + b).drop_last() =~= a + b.drop_last());
        assert((a + b).last() == b.last());
        lemma_search_concat(a, b.drop_last(), keyword, level);
        let ra = search_results(a, keyword, level);
        let rb = search_results(b.drop_last(), keyword, level);
        match stream_result(b.last(), keyword, level) {
            Some(r) => {
                assert((ra + rb).push(r) =~= ra + rb.push(r));
            },
            None => {},
        }
    }
}

/// A stream whose fetch failed changes nothing in a search: the other
/// streams give the same results, in the same order, and no error arises.
pub proof fn failed_stream_is_skipped(
    before: Seq<StreamModel>,
    failed: StreamModel,
    after: Seq<StreamModel>,
    keyword: Option<Seq<char>>,
    level: Option<Seq<char>>,
)
    requires
        failed.logs is None,
    ensures
        search_results(before.push(failed) + after, keyword, level) == search_results(
            before + after,
            keyword,
            level,
        ),
{
    lemma_search_concat(before.push(failed), after, keyword, level);
    lemma_search_concat(before, after, keyword, level);
    assert(before.push(failed).drop_last() =~= before);
}

/// No search result is empty: each holds at least one entry, and its count
/// is the number of its entries.
pub proof fn search_emits_no_empty_result(
    ss: Seq<StreamModel>,
    keyword: Option<Seq<char>>,
    level: Option<Seq<char>>,
    i: int,
)
    requires
        0 <= i < search_results(ss, keyword, level).len(),
    ensures
        search_results(ss, keyword, level)[i].entries.len() > 0,
        search_results(ss, keyword, level)[i].total_matches == search_results(
            ss,
            keyword,
            level,
        )[i].entries.len(),
    decreases ss.len(),
{
    if ss.len() > 0 {
        let prev = search_results(ss.drop_last(), keyword, level);
        if i < prev.len() {
            search_emits_no_empty_result(ss.drop_last(), keyword, level, i);
        }
    }
}

} // verus!
