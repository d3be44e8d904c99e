use focus_core::logs::{LogEntry, SessionEntry};

fn list(lines: &[&str], start: &str) -> Result<Vec<SessionEntry>, String> {
    let owned: Vec<String> = lines.iter().map(|l| l.to_string()).collect();
    focus_core::logs::list_session_entries(Some(&owned), start)
}

#[test]
fn test_status_to_label() {
    assert_eq!(
        SessionEntry::status_to_label("On Task"),
        "\u{e2}\u{153}\u{2026} On Task"
    );
    assert_eq!(
        SessionEntry::status_to_label("Social Media"),
        "\u{f0}\u{178}\u{201c}\u{b1} Social Media"
    );
    assert_eq!(SessionEntry::status_to_label("Unknown"), "Unknown");
}

#[test]
fn test_log_entry_conversion() {
    let log_entry = LogEntry {
        timestamp: "2025-11-13T10:00:00Z".to_string(),
        session_goal: Some("Test goal".to_string()),
        reported_status: "On Task".to_string(),
        notes: Some("Test note".to_string()),
        session_duration_setting: Some(720),
        check_in_interval_setting: Some(15),
        write_time_setting: Some(20),
        check_in_number: Some(1),
    };

    let session_entry = SessionEntry::from_log_entry(log_entry);

    assert_eq!(session_entry.timestamp, "2025-11-13T10:00:00Z");
    assert_eq!(session_entry.status, "On Task");
    assert_eq!(session_entry.status_label, "\u{e2}\u{153}\u{2026} On Task");
    assert_eq!(session_entry.note, "Test note");
}

#[test]
fn all_five_labels_are_decorated() {
    assert_eq!(
        SessionEntry::status_to_label("Email/Chat"),
        "\u{f0}\u{178}\u{201c}\u{a7} Email/Chat"
    );
    assert_eq!(
        SessionEntry::status_to_label("Other Distraction"),
        "\u{f0}\u{178}\u{201d}\u{20ac} Other Distraction"
    );
    assert_eq!(
        SessionEntry::status_to_label("Taking a Break"),
        "\u{e2}\u{2dc}\u{2022}\u{ef}\u{b8} Taking a Break"
    );
    // Unrecognized statuses pass through unchanged, even close misses.
    assert_eq!(SessionEntry::status_to_label("on task"), "on task");
    assert_eq!(SessionEntry::status_to_label(""), "");
}

#[test]
fn malformed_line_is_skipped_without_error() {
    let entries = list(
        &[
            r#"{"timestamp":"2025-01-01T10:00:00Z","reported_status":"On Task","notes":"morning"}"#,
            "not valid json",
        ],
        "2025-01-01T00:00:00Z",
    )
    .unwrap();
    assert_eq!(entries.len(), 1);
    assert_eq!(entries[0].status, "On Task");
    assert_eq!(entries[0].status_label, "\u{e2}\u{153}\u{2026} On Task");
    assert_eq!(entries[0].note, "morning");
}

#[test]
fn malformed_lines_never_drop_valid_neighbors() {
    let entries = list(
        &[
            "{\"broken\": ",
            r#"{"timestamp":"2025-01-01T08:00:00Z","reported_status":"On Task"}"#,
            "also not json",
            r#"{"timestamp":"2025-01-01T09:00:00Z","reported_status":"Email/Chat"}"#,
            "[1, 2, 3",
        ],
        "2025-01-01T00:00:00Z",
    )
    .unwrap();
    assert_eq!(entries.len(), 2);
    assert_eq!(entries[0].timestamp, "2025-01-01T08:00:00Z");
    assert_eq!(entries[1].timestamp, "2025-01-01T09:00:00Z");
}

#[test]
fn blank_lines_are_skipped() {
    let entries = list(
        &[
            "",
            "   ",
            "\t",
            r#"{"timestamp":"2025-01-01T08:00:00Z","reported_status":"On Task"}"#,
            "",
        ],
        "2025-01-01T00:00:00Z",
    )
    .unwrap();
    assert_eq!(entries.len(), 1);
}

#[test]
fn bad_timestamp_line_is_skipped() {
    let entries = list(
        &[
            r#"{"timestamp":"yesterday at noon","reported_status":"On Task"}"#,
            r#"{"timestamp":"2025-01-01T08:00:00Z","reported_status":"On Task"}"#,
        ],
        "2025-01-01T00:00:00Z",
    )
    .unwrap();
    assert_eq!(entries.len(), 1);
    assert_eq!(entries[0].timestamp, "2025-01-01T08:00:00Z");
}

#[test]
fn non_object_json_line_is_skipped() {
    let entries = list(
        &[
            "3",
            "[\"timestamp\"]",
            "\"2025-01-01T08:00:00Z\"",
            r#"{"timestamp":"2025-01-01T08:00:00Z","reported_status":"On Task"}"#,
        ],
        "2025-01-01T00:00:00Z",
    )
    .unwrap();
    assert_eq!(entries.len(), 1);
}

#[test]
fn wrong_field_shapes_reject_the_line() {
    let entries = list(
        &[
            // notes must be text or null when present
            r#"{"timestamp":"2025-01-01T08:00:00Z","reported_status":"On Task","notes":7}"#,
            // numeric settings must fit u32
            r#"{"timestamp":"2025-01-01T08:05:00Z","reported_status":"On Task","check_in_number":5000000000}"#,
            // negative numbers are refused too
            r#"{"timestamp":"2025-01-01T08:10:00Z","reported_status":"On Task","write_time_setting":-5}"#,
            // reported_status is required
            r#"{"timestamp":"2025-01-01T08:15:00Z"}"#,
            // a fractional number is not an integer setting
            r#"{"timestamp":"2025-01-01T08:20:00Z","reported_status":"On Task","session_duration_setting":7.5}"#,
            r#"{"timestamp":"2025-01-01T08:30:00Z","reported_status":"On Task","check_in_number":3}"#,
        ],
        "2025-01-01T00:00:00Z",
    )
    .unwrap();
    assert_eq!(entries.len(), 1);
    assert_eq!(entries[0].timestamp, "2025-01-01T08:30:00Z");
}

#[test]
fn null_or_missing_notes_become_empty() {
    let entries = list(
        &[
            r#"{"timestamp":"2025-01-01T08:00:00Z","reported_status":"On Task","notes":null}"#,
            r#"{"timestamp":"2025-01-01T09:00:00Z","reported_status":"On Task"}"#,
        ],
        "2025-01-01T00:00:00Z",
    )
    .unwrap();
    assert_eq!(entries.len(), 2);
    assert_eq!(entries[0].note, "");
    assert_eq!(entries[1].note, "");
}

#[test]
fn start_filter_is_inclusive() {
    let entries = list(
        &[
            r#"{"timestamp":"2025-01-01T07:59:59Z","reported_status":"Early"}"#,
            r#"{"timestamp":"2025-01-01T08:00:00Z","reported_status":"Exact"}"#,
            r#"{"timestamp":"2025-01-01T08:00:01Z","reported_status":"Late"}"#,
        ],
        "2025-01-01T08:00:00Z",
    )
    .unwrap();
    assert_eq!(entries.len(), 2);
    assert_eq!(entries[0].status, "Exact");
    assert_eq!(entries[1].status, "Late");
}

#[test]
fn filter_honors_timezone_offsets() {
    // 09:30+02:00 is 07:30Z, before the start; 10:30+02:00 is 08:30Z, after.
    let entries = list(
        &[
            r#"{"timestamp":"2025-01-01T09:30:00+02:00","reported_status":"Before"}"#,
            r#"{"timestamp":"2025-01-01T10:30:00+02:00","reported_status":"After"}"#,
        ],
        "2025-01-01T08:00:00Z",
    )
    .unwrap();
    assert_eq!(entries.len(), 1);
    assert_eq!(entries[0].status, "After");
}

#[test]
fn result_is_sorted_regardless_of_disk_order() {
    let entries = list(
        &[
            r#"{"timestamp":"2025-01-03T00:00:00Z","reported_status":"Third"}"#,
            r#"{"timestamp":"2025-01-01T00:00:00Z","reported_status":"First"}"#,
            r#"{"timestamp":"2025-01-02T00:00:00Z","reported_status":"Second"}"#,
        ],
        "2024-12-31T00:00:00Z",
    )
    .unwrap();
    let stamps: Vec<&str> = entries.iter().map(|e| e.timestamp.as_str()).collect();
    assert_eq!(
        stamps,
        vec![
            "2025-01-01T00:00:00Z",
            "2025-01-02T00:00:00Z",
            "2025-01-03T00:00:00Z"
        ]
    );
}

#[test]
fn missing_file_yields_empty_history_not_error() {
    let direct = focus_core::logs::read_since(None, (0, 0));
    assert!(direct.is_empty());

    let listed = focus_core::logs::list_session_entries(None, "2025-01-01T00:00:00Z");
    assert_eq!(listed.unwrap().len(), 0);
}

#[test]
fn invalid_start_timestamp_is_surfaced() {
    let r = list(
        &[r#"{"timestamp":"2025-01-01T08:00:00Z","reported_status":"On Task"}"#],
        "last tuesday",
    );
    let cause = chrono::DateTime::parse_from_rfc3339("last tuesday").unwrap_err();
    match r {
        Err(m) => {
            assert!(m.starts_with("Invalid timestamp format: "));
            assert_eq!(m, format!("Invalid timestamp format: {}", cause));
        }
        Ok(_) => panic!("an unparsable start timestamp must be rejected"),
    }
}

#[test]
fn status_key_is_reported_status_camel_case() {
    // The record field is named reportedStatus; the scenario line and one
    // unparsable neighbor.
    let entries = list(
        &[
            r#"{"timestamp":"2025-01-01T10:00:00Z","reportedStatus":"On Task"}"#,
            "not valid json",
        ],
        "2025-01-01T00:00:00Z",
    )
    .unwrap();
    assert_eq!(entries.len(), 1);
    assert_eq!(entries[0].status, "On Task");
    assert_eq!(entries[0].status_label, "\u{e2}\u{153}\u{2026} On Task");
}

#[test]
fn underscored_status_key_is_accepted_as_fallback() {
    let entries = list(
        &[
            // The camel-case key wins when both are present.
            r#"{"timestamp":"2025-01-01T08:00:00Z","reportedStatus":"Email/Chat","reported_status":"On Task"}"#,
            // A wrongly shaped camel-case key rejects the line even beside a
            // well-shaped fallback.
            r#"{"timestamp":"2025-01-01T09:00:00Z","reportedStatus":7,"reported_status":"On Task"}"#,
            // Neither key present: no record.
            r#"{"timestamp":"2025-01-01T10:00:00Z"}"#,
        ],
        "2025-01-01T00:00:00Z",
    )
    .unwrap();
    assert_eq!(entries.len(), 1);
    assert_eq!(entries[0].status, "Email/Chat");
}

#[test]
fn empty_file_yields_empty_history() {
    let entries = list(&[], "2025-01-01T00:00:00Z").unwrap();
    assert!(entries.is_empty());
}

#[test]
fn parse_log_line_reads_all_fields() {
    let entry = focus_core::logs::parse_log_line(
        r#"{"timestamp":"2025-11-13T10:00:00Z","session_goal":"Test goal","reported_status":"On Task","notes":"Test note","session_duration_setting":720,"check_in_interval_setting":15,"write_time_setting":20,"check_in_number":1}"#,
    )
    .unwrap();
    assert_eq!(entry.timestamp, "2025-11-13T10:00:00Z");
    assert_eq!(entry.session_goal, Some("Test goal".to_string()));
    assert_eq!(entry.reported_status, "On Task");
    assert_eq!(entry.notes, Some("Test note".to_string()));
    assert_eq!(entry.session_duration_setting, Some(720));
    assert_eq!(entry.check_in_interval_setting, Some(15));
    assert_eq!(entry.write_time_setting, Some(20));
    assert_eq!(entry.check_in_number, Some(1));
    assert!(focus_core::logs::parse_log_line("not valid json").is_none());
}
