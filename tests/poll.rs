use voice_summary_bot::poll::{
    PollAction, PollOutcome, Poller, ServiceError, MAX_POLL_ATTEMPTS, POLL_INTERVAL_SECS,
};
use voice_summary_bot::transcript::{AssemblyAiTranscript, AssemblyAiTranscriptStatus};

fn snapshot(status: AssemblyAiTranscriptStatus) -> AssemblyAiTranscript {
    AssemblyAiTranscript {
        id: "job-1".to_string(),
        status,
        text: None,
        error: None,
        passthrough: serde_json::Value::Null,
    }
}

#[test]
fn unfinished_status_costs_one_attempt() {
    for st in [AssemblyAiTranscriptStatus::Queued, AssemblyAiTranscriptStatus::Processing] {
        let mut poller = Poller::new();
        assert!(matches!(poller.next(), PollAction::FetchJob));
        assert!(matches!(poller.observe(Ok(snapshot(st))), PollAction::SleepThenRetry));
        assert_eq!(poller.attempts(), 1);
        assert!(matches!(poller.next(), PollAction::FetchJob));
    }
    assert_eq!(POLL_INTERVAL_SECS, 1);
}

#[test]
fn times_out_after_exactly_121_fetches() {
    let mut poller = Poller::new();
    let mut fetches: u64 = 0;
    loop {
        match poller.next() {
            PollAction::FetchJob => {}
            PollAction::Finish(PollOutcome::TimedOut) => break,
            other => panic!("unexpected action {:?}", other),
        }
        fetches += 1;
        let st = if fetches % 2 == 0 {
            AssemblyAiTranscriptStatus::Queued
        } else {
            AssemblyAiTranscriptStatus::Processing
        };
        assert!(matches!(poller.observe(Ok(snapshot(st))), PollAction::SleepThenRetry));
    }
    assert_eq!(fetches, 121);
    assert_eq!(MAX_POLL_ATTEMPTS + 1, 121);
    assert_eq!(poller.attempts(), 121);
}

#[test]
fn completed_job_ends_polling_at_once() {
    let mut poller = Poller::new();
    let mut job = snapshot(AssemblyAiTranscriptStatus::Completed);
    job.text = Some("hello world".to_string());
    match poller.observe(Ok(job)) {
        PollAction::Finish(PollOutcome::Completed(j)) => {
            assert_eq!(j.id, "job-1");
            assert_eq!(j.text.as_deref(), Some("hello world"));
        }
        other => panic!("unexpected action {:?}", other),
    }
    assert_eq!(poller.attempts(), 0);
}

#[test]
fn terminal_job_seen_again_gives_same_outcome() {
    for _ in 0..3 {
        let mut poller = Poller::new();
        let mut job = snapshot(AssemblyAiTranscriptStatus::Error);
        job.error = Some("bad audio".to_string());
        match poller.observe(Ok(job)) {
            PollAction::Finish(PollOutcome::Failed(msg)) => {
                assert_eq!(msg.as_deref(), Some("bad audio"))
            }
            other => panic!("unexpected action {:?}", other),
        }
        assert_eq!(poller.attempts(), 0);
    }
}

#[test]
fn fetch_error_aborts_polling() {
    let mut poller = Poller::new();
    assert!(matches!(
        poller.observe(Err(ServiceError::Transport)),
        PollAction::Finish(PollOutcome::FetchFailed(ServiceError::Transport))
    ));
    let mut poller = Poller::new();
    assert!(matches!(
        poller.observe(Err(ServiceError::Decode)),
        PollAction::Finish(PollOutcome::FetchFailed(ServiceError::Decode))
    ));
    assert_eq!(poller.attempts(), 0);
}
