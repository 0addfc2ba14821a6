use podlogs::level::{canonical_level, detect_in_upper, detect_log_level, normalize_log_level};
use podlogs::parser::{parse_json_log, parse_log_line, parse_plain_log};
use podlogs::timestamp::extract_timestamp;

#[test]
fn timestamp_is_split_off() {
    let (ts, rest) = extract_timestamp("2024-12-26T10:23:45.123456789Z hello world");
    assert_eq!(ts.as_deref(), Some("2024-12-26T10:23:45.123456789Z"));
    assert_eq!(rest, "hello world");
}

#[test]
fn line_without_timestamp_is_kept_whole() {
    let (ts, rest) = extract_timestamp("not a timestamp line");
    assert_eq!(ts, None);
    assert_eq!(rest, "not a timestamp line");
}

#[test]
fn timestamp_with_offset_is_recognised() {
    let line = "2024-12-26T10:23:45.123456+02:00 starting up now";
    let (ts, rest) = extract_timestamp(line);
    assert_eq!(ts.as_deref(), Some("2024-12-26T10:23:45.123456+02:00"));
    assert_eq!(rest, "starting up now");
}

#[test]
fn short_line_has_no_timestamp() {
    let (ts, rest) = extract_timestamp("2024-12-26T10:23:45Z hi");
    assert_eq!(ts, None);
    assert_eq!(rest, "2024-12-26T10:23:45Z hi");
}

#[test]
fn prefix_without_instant_shape_is_not_a_timestamp() {
    let line = "2024-12-26 10:23:45 some plain message here ok";
    let (ts, rest) = extract_timestamp(line);
    assert_eq!(ts, None);
    assert_eq!(rest, line);
}

#[test]
fn length_probe_counts_bytes() {
    let line = "2024-12-26T10:23:45Z \u{e9}\u{e9}\u{e9}\u{e9}\u{e9}\u{e9}\u{e9}";
    assert_eq!(line.chars().count(), 28);
    let (ts, rest) = extract_timestamp(line);
    assert_eq!(ts.as_deref(), Some("2024-12-26T10:23:45Z"));
    assert_eq!(rest, "\u{e9}\u{e9}\u{e9}\u{e9}\u{e9}\u{e9}\u{e9}");
}

#[test]
fn timestamp_only_line_keeps_raw_message() {
    let line = "2024-12-26T10:23:45.123456789Z ";
    let e = parse_log_line(line, "p", "c");
    assert!(!e.is_json);
    assert_eq!(e.timestamp.as_deref(), Some("2024-12-26T10:23:45.123456789Z"));
    assert_eq!(e.message, line);
}

#[test]
fn empty_line_has_no_timestamp() {
    let (ts, rest) = extract_timestamp("");
    assert_eq!(ts, None);
    assert_eq!(rest, "");
}

#[test]
fn severity_aliases_normalise() {
    assert_eq!(normalize_log_level("warning"), "WARN");
    assert_eq!(normalize_log_level("crit"), "ERROR");
    assert_eq!(normalize_log_level("notice"), "NOTICE");
    assert_eq!(normalize_log_level("Fatal"), "ERROR");
    assert_eq!(normalize_log_level("information"), "INFO");
    assert_eq!(normalize_log_level("trace"), "DEBUG");
    assert_eq!(normalize_log_level("verbose"), "DEBUG");
    assert_eq!(normalize_log_level(""), "");
}

#[test]
fn canonical_level_of_upper_tokens() {
    assert_eq!(canonical_level("ERR"), "ERROR");
    assert_eq!(canonical_level("CRITICAL"), "ERROR");
    assert_eq!(canonical_level("WARNING"), "WARN");
    assert_eq!(canonical_level("INFO"), "INFO");
    assert_eq!(canonical_level("DEBUG"), "DEBUG");
    assert_eq!(canonical_level("NOTICE"), "NOTICE");
    assert_eq!(canonical_level("warn"), "warn");
}

#[test]
fn earlier_pattern_wins() {
    assert_eq!(
        detect_log_level("[ERROR] disk full WARN retrying").as_deref(),
        Some("ERROR")
    );
    assert_eq!(detect_log_level("a WARN b [ERROR] c").as_deref(), Some("ERROR"));
}

#[test]
fn plain_detection_is_case_insensitive() {
    assert_eq!(detect_log_level("[warn] low memory").as_deref(), Some("WARN"));
    assert_eq!(detect_log_level("info: ready").as_deref(), Some("INFO"));
    assert_eq!(detect_log_level("[trace] step").as_deref(), Some("DEBUG"));
    assert_eq!(detect_log_level("fatal: gone").as_deref(), Some("ERROR"));
}

#[test]
fn plain_detection_without_match() {
    assert_eq!(detect_log_level("all systems nominal"), None);
    assert_eq!(detect_log_level(""), None);
    assert_eq!(detect_in_upper("[info] lower case"), None);
    assert_eq!(detect_in_upper("X [DEBUG] Y").as_deref(), Some("DEBUG"));
}

#[test]
fn structured_message_priority() {
    let e = parse_log_line("{\"msg\":\"a\",\"message\":\"b\"}", "p", "c");
    assert!(e.is_json);
    assert_eq!(e.message, "b");
}

#[test]
fn structured_fields_are_extracted() {
    let line = "2024-12-26T10:23:45.123456789Z {\"severity\":\"warning\",\"log\":\"x\",\"ts\":\"T1\"}";
    let e = parse_log_line(line, "pod-a", "app");
    assert!(e.is_json);
    assert_eq!(e.level.as_deref(), Some("WARN"));
    assert_eq!(e.message, "x");
    assert_eq!(e.timestamp.as_deref(), Some("T1"));
    assert_eq!(e.raw, line);
    assert_eq!(e.pod_name, "pod-a");
    assert_eq!(e.container_name, "app");
}

#[test]
fn structured_falls_back_to_line_timestamp_and_raw() {
    let line = "2024-12-26T10:23:45.123456789Z {\"other\":1}";
    let e = parse_log_line(line, "p", "c");
    assert!(e.is_json);
    assert_eq!(e.timestamp.as_deref(), Some("2024-12-26T10:23:45.123456789Z"));
    assert_eq!(e.message, line);
    assert_eq!(e.level, None);
}

#[test]
fn non_string_field_is_passed_over() {
    let e = parse_log_line("{\"level\":3,\"severity\":\"error\",\"message\":\"m\"}", "p", "c");
    assert!(e.is_json);
    assert_eq!(e.level.as_deref(), Some("ERROR"));
    assert_eq!(e.message, "m");
}

#[test]
fn non_string_message_and_time_are_passed_over() {
    let e = parse_log_line("{\"message\":5,\"msg\":\"hi\",\"timestamp\":1,\"time\":\"t1\"}", "p", "c");
    assert!(e.is_json);
    assert_eq!(e.message, "hi");
    assert_eq!(e.timestamp.as_deref(), Some("t1"));
}

#[test]
fn no_string_field_leaves_level_absent() {
    let e = parse_log_line("{\"level\":3,\"lvl\":true}", "p", "c");
    assert!(e.is_json);
    assert_eq!(e.level, None);
    assert_eq!(e.message, "{\"level\":3,\"lvl\":true}");
}

#[test]
fn non_object_json_is_plain() {
    let e = parse_log_line("[1,2,3]", "p", "c");
    assert!(!e.is_json);
    assert_eq!(e.message, "[1,2,3]");
    let n = parse_log_line("42", "p", "c");
    assert!(!n.is_json);
}

#[test]
fn plain_line_keeps_remainder() {
    let line = "2024-12-26T10:23:45.123456789Z ERROR: boom";
    let e = parse_log_line(line, "p", "c");
    assert!(!e.is_json);
    assert_eq!(e.timestamp.as_deref(), Some("2024-12-26T10:23:45.123456789Z"));
    assert_eq!(e.message, "ERROR: boom");
    assert_eq!(e.level.as_deref(), Some("ERROR"));
    assert_eq!(e.raw, line);
}

#[test]
fn parsing_twice_gives_the_same_entry() {
    let line = "2024-12-26T10:23:45.123456789Z {\"level\":\"info\",\"msg\":\"hi\"}";
    let a = parse_log_line(line, "p", "c");
    let b = parse_log_line(line, "p", "c");
    assert_eq!(a.timestamp, b.timestamp);
    assert_eq!(a.level, b.level);
    assert_eq!(a.message, b.message);
    assert_eq!(a.raw, b.raw);
    assert_eq!(a.is_json, b.is_json);
}

#[test]
fn raw_is_kept_on_every_path() {
    for line in [
        "plain text",
        "{\"message\":\"m\"}",
        "2024-12-26T10:23:45.123456789Z [WARN] x",
        "",
    ] {
        assert_eq!(parse_log_line(line, "p", "c").raw, line);
    }
}

#[test]
fn plain_and_json_builders() {
    let e = parse_plain_log("[INFO] up", Some("T".to_string()), "p", "c", "raw line");
    assert_eq!(e.level.as_deref(), Some("INFO"));
    assert_eq!(e.message, "[INFO] up");
    assert_eq!(e.raw, "raw line");
    assert_eq!(e.timestamp.as_deref(), Some("T"));
    let fields = vec![
        ("lvl".to_string(), Some("err".to_string())),
        ("time".to_string(), Some("T2".to_string())),
        ("msg".to_string(), None),
    ];
    let j = parse_json_log(&fields, Some("T".to_string()), "p", "c", "r");
    assert_eq!(j.level.as_deref(), Some("ERROR"));
    assert_eq!(j.timestamp.as_deref(), Some("T2"));
    assert_eq!(j.message, "r");
}
