use podlogs::models::LogEntry;
use podlogs::search::{
    assemble_search, entry_matches_filters, filter_entries, matches_folded, parse_log_text,
    pick_container, search_stream, StreamFetch,
};
use podlogs::text::split_lines;

fn entry(level: Option<&str>, message: &str) -> LogEntry {
    LogEntry {
        timestamp: None,
        level: level.map(|l| l.to_string()),
        message: message.to_string(),
        raw: message.to_string(),
        is_json: false,
        pod_name: "p".to_string(),
        container_name: "c".to_string(),
    }
}

fn stream(pod: &str, container: &str, logs: Option<&str>) -> StreamFetch {
    StreamFetch {
        pod_name: pod.to_string(),
        container_name: container.to_string(),
        logs: logs.map(|l| l.to_string()),
    }
}

#[test]
fn level_filter_is_exact_and_case_insensitive() {
    let es = vec![entry(Some("ERROR"), "a"), entry(Some("WARN"), "b"), entry(None, "c")];
    let kept = filter_entries(&es, &None, &Some("warn".to_string()));
    assert_eq!(kept.len(), 1);
    assert_eq!(kept[0].level.as_deref(), Some("WARN"));
    assert_eq!(kept[0].message, "b");
}

#[test]
fn keyword_filter_is_case_insensitive() {
    let es = vec![entry(None, "Disk FULL"), entry(None, "ok")];
    let kept = filter_entries(&es, &Some("full".to_string()), &None);
    assert_eq!(kept.len(), 1);
    assert_eq!(kept[0].message, "Disk FULL");
}

#[test]
fn keyword_matches_raw_line() {
    let mut e = entry(None, "msg");
    e.raw = "2024 prefix msg".to_string();
    assert!(entry_matches_filters(&e, &Some("PREFIX".to_string()), &None));
    assert!(!entry_matches_filters(&e, &Some("absent".to_string()), &None));
}

#[test]
fn no_filters_keep_everything() {
    let es = vec![entry(None, "a"), entry(Some("INFO"), "b")];
    assert_eq!(filter_entries(&es, &None, &None).len(), 2);
}

#[test]
fn folded_decision() {
    assert!(matches_folded("abc", "", None, Some("b"), None));
    assert!(!matches_folded("abc", "xyz", None, Some("q"), None));
    assert!(matches_folded("", "", Some("WARN"), None, Some("WARN")));
    assert!(!matches_folded("", "", None, None, Some("WARN")));
    assert!(matches_folded("", "", None, Some(""), None));
}

#[test]
fn lines_are_split() {
    assert_eq!(split_lines("a\r\nb\n\nc\r"), vec!["a", "b", "", "c\r"]);
    assert_eq!(split_lines("x\n"), vec!["x"]);
    assert!(split_lines("").is_empty());
}

#[test]
fn text_is_parsed_line_by_line() {
    let es = parse_log_text("[ERROR] a\n{\"msg\":\"b\"}\n", "p", "c");
    assert_eq!(es.len(), 2);
    assert_eq!(es[0].level.as_deref(), Some("ERROR"));
    assert!(es[1].is_json);
    assert_eq!(es[1].message, "b");
}

#[test]
fn failed_fetch_is_skipped() {
    let streams = vec![
        stream("p1", "c1", Some("[ERROR] one\nfine")),
        stream("p2", "c2", None),
        stream("p3", "c3", Some("[ERROR] three")),
    ];
    let rs = assemble_search(&streams, &None, &Some("error".to_string()));
    assert_eq!(rs.len(), 2);
    assert_eq!(rs[0].pod_name, "p1");
    assert_eq!(rs[0].container_name, "c1");
    assert_eq!(rs[0].total_matches, 1);
    assert_eq!(rs[1].pod_name, "p3");
    assert_eq!(rs[1].entries[0].message, "[ERROR] three");
}

#[test]
fn empty_results_are_dropped() {
    let streams = vec![
        stream("p1", "c1", Some("nothing here")),
        stream("p2", "c2", Some("needle in it\nand more needle")),
        stream("p3", "c3", Some("")),
    ];
    let rs = assemble_search(&streams, &Some("NEEDLE".to_string()), &None);
    assert_eq!(rs.len(), 1);
    assert_eq!(rs[0].pod_name, "p2");
    assert_eq!(rs[0].total_matches, 2);
    assert_eq!(rs[0].entries.len(), 2);
}

#[test]
fn search_with_no_matches_is_empty() {
    let streams = vec![stream("p1", "c1", Some("a\nb"))];
    assert!(assemble_search(&streams, &Some("zzz".to_string()), &None).is_empty());
    assert!(assemble_search(&Vec::new(), &None, &None).is_empty());
}

#[test]
fn single_stream_result() {
    let s = stream("p", "c", Some("x [WARN] y"));
    let r = search_stream(&s, &None, &None).unwrap();
    assert_eq!(r.total_matches, 1);
    assert_eq!(r.entries[0].pod_name, "p");
    assert!(search_stream(&stream("p", "c", None), &None, &None).is_none());
}

#[test]
fn container_is_picked() {
    let spec = vec!["main".to_string(), "side".to_string()];
    assert_eq!(pick_container(&None, &spec).as_deref(), Some("main"));
    assert_eq!(pick_container(&Some("side".to_string()), &spec).as_deref(), Some("side"));
    assert_eq!(pick_container(&None, &Vec::new()), None);
}
