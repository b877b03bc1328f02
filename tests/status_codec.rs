use voice_summary_bot::transcript::{AssemblyAiTranscriptStatus, Timestamp, Timestamp2};

fn all_statuses() -> Vec<AssemblyAiTranscriptStatus> {
    vec![
        AssemblyAiTranscriptStatus::Queued,
        AssemblyAiTranscriptStatus::Processing,
        AssemblyAiTranscriptStatus::Completed,
        AssemblyAiTranscriptStatus::Error,
    ]
}

#[test]
fn status_wire_strings() {
    assert_eq!(AssemblyAiTranscriptStatus::Queued.to_wire(), "queued");
    assert_eq!(AssemblyAiTranscriptStatus::Processing.to_wire(), "processing");
    assert_eq!(AssemblyAiTranscriptStatus::Completed.to_wire(), "completed");
    assert_eq!(AssemblyAiTranscriptStatus::Error.to_wire(), "error");
}

#[test]
fn status_round_trip_keeps_wire_string() {
    for st in all_statuses() {
        let wire = st.to_wire();
        let back = AssemblyAiTranscriptStatus::from_wire(&wire);
        assert_eq!(back, Some(st));
        assert_eq!(back.unwrap().to_wire(), wire);
    }
}

#[test]
fn unknown_status_is_refused() {
    assert_eq!(AssemblyAiTranscriptStatus::from_wire("Queued"), None);
    assert_eq!(AssemblyAiTranscriptStatus::from_wire(""), None);
    assert_eq!(AssemblyAiTranscriptStatus::from_wire("done"), None);
    assert_eq!(AssemblyAiTranscriptStatus::from_wire(" error"), None);
}

#[test]
fn terminal_statuses() {
    assert!(!AssemblyAiTranscriptStatus::Queued.is_terminal());
    assert!(!AssemblyAiTranscriptStatus::Processing.is_terminal());
    assert!(AssemblyAiTranscriptStatus::Completed.is_terminal());
    assert!(AssemblyAiTranscriptStatus::Error.is_terminal());
}

#[test]
fn timestamps_compare_by_fields() {
    let a = Timestamp { start: 10, end: 250 };
    assert_eq!(a, Timestamp { start: 10, end: 250 });
    assert_ne!(a, Timestamp { start: 10, end: 251 });
    let b = Timestamp2 { start: -1, end: 0 };
    assert_eq!(b.start, -1);
    assert_eq!(b.end, 0);
}
