//! Bounded polling of a transcription job until it reaches a terminal state.
//!
//! The caller performs each fetch and each sleep; the poller decides what
//! comes next from what the fetch returned.
use vstd::prelude::*;
use crate::transcript::{AssemblyAiTranscript, AssemblyAiTranscriptStatus};

verus! {

/// Largest attempt count at which another fetch is still made.
pub const MAX_POLL_ATTEMPTS: u64 = 120;

/// Pause between two fetches of the same job, in seconds.
pub const POLL_INTERVAL_SECS: u64 = 1;

/// Why a network exchange with a provider produced no usable answer.
#[derive(Debug, Clone, Copy, PartialEq, Eq, Structural)]
pub enum ServiceError {
    /// Connection failure, failed status or broken stream.
    Transport,
    /// The answer did not have the expected shape.
    Decode,
}

/// How polling ended.
#[derive(Debug)]
pub enum PollOutcome {
    /// The job completed; this is its last snapshot.
    Completed(AssemblyAiTranscript),
    /// The provider reported the job as failed, with its message.
    Failed(Option<String>),
    /// A fetch of the job failed; polling is not retried.
    FetchFailed(ServiceError),
    /// The attempt bound was passed.
    TimedOut,
}

/// What the caller does next.
#[derive(Debug)]
pub enum PollAction {
    /// Fetch the job's current snapshot and hand it to `observe`.
    FetchJob,
    /// Sleep one interval, then ask `next` again.
    SleepThenRetry,
    /// Polling is over.
    Finish(PollOutcome),
}

/// Attempt counter of one polling run.
#[derive(Debug)]
pub struct Poller {
    attempts: u64,
}

impl View for Poller {
    type V = nat;

    closed spec fn view(&self) -> nat {
        self.attempts as nat
    }
}

/// What `next` decides after `attempts` unsuccessful attempts.
pub open spec fn next_spec(attempts: nat) -> PollAction {
    if attempts > MAX_POLL_ATTEMPTS {
        PollAction::Finish(PollOutcome::TimedOut)
    } else {
        PollAction::FetchJob
    }
}

/// Whether a fetch result leaves the job unfinished, so that polling goes on.
pub open spec fn is_unfinished(fetched: Result<AssemblyAiTranscript, ServiceError>) -> bool {
    match fetched {
        Ok(job) => !job.status.is_terminal(),
        Err(_) => false,
    }
}

/// What `observe` decides for a fetch result.
pub open spec fn observe_spec(fetched: Result<AssemblyAiTranscript, ServiceError>) -> PollAction {
    match fetched {
        Err(e) => PollAction::Finish(PollOutcome::FetchFailed(e)),
        Ok(job) => match job.status {
            AssemblyAiTranscriptStatus::Completed => PollAction::Finish(PollOutcome::Completed(job)),
            AssemblyAiTranscriptStatus::Error => PollAction::Finish(PollOutcome::Failed(job.error)),
            _ => PollAction::SleepThenRetry,
        },
    }
}

impl Poller {
    pub fn new() -> (r: Poller)
        ensures
            r@ == 0,
    {
        Poller { attempts: 0 }
    }

    pub fn attempts(&self) -> (r: u64)
        ensures
            r == self@,
    {
        self.attempts
    }

    /// Checks the attempt bound: fetch again, or give up.
    pub fn next(&self) -> (r: PollAction)
        ensures
            r == next_spec(self@),
    {
        if self.attempts > MAX_POLL_ATTEMPTS {
            PollAction::Finish(PollOutcome::TimedOut)
        } else {
            PollAction::FetchJob
        }
    }

    /// Takes the result of a fetch that `next` asked for. A job still queued
    /// or processing costs one attempt; anything else ends polling.
    pub fn observe(&mut self, fetched: Result<AssemblyAiTranscript, ServiceError>) -> (r: PollAction)
        requires
            old(self)@ <= MAX_POLL_ATTEMPTS,
        ensures
            r == observe_spec(fetched),
            final(self)@ == if is_unfinished(fetched) { old(self)@ + 1 } else { old(self)@ },
    {
        match fetched {
            Err(e) => PollAction::Finish(PollOutcome::FetchFailed(e)),
            Ok(job) => match job.status {
                AssemblyAiTranscriptStatus::Completed => PollAction::Finish(PollOutcome::Completed(job)),
                AssemblyAiTranscriptStatus::Error => PollAction::Finish(PollOutcome::Failed(job.error)),
                _ => {
                    self.attempts = self.attempts + 1;
                    PollAction::SleepThenRetry
                },
            },
        }
    }
}

/// A polling run that starts after `attempts` attempts and whose fetches
/// return the items of `fetches` in turn: how many fetches it makes, and how
/// it ends (`None` where it would need more fetches than `fetches` holds).
pub open spec fn poll_run(
    attempts: nat,
    fetches: Seq<Result<AssemblyAiTranscript, ServiceError>>,
) -> (nat, Option<PollOutcome>)
    decreases fetches.len(),
{
    match next_spec(attempts) {
        PollAction::Finish(o) => (0, Some(o)),
        _ => if fetches.len() == 0 {
            (0, None)
        } else {
            match observe_spec(fetches[0]) {
                PollAction::Finish(o) => (1, Some(o)),
                _ => {
                    let rest = poll_run(attempts + 1, fetches.drop_first());
                    (rest.0 + 1, rest.1)
                },
            }
        },
    }
}

/// A job that is still queued or processing is fetched again after one
/// sleep: the run goes on as a run that starts one attempt later.
pub proof fn lemma_unfinished_job_polled_again(
    attempts: nat,
    job: AssemblyAiTranscript,
    rest: Seq<Result<AssemblyAiTranscript, ServiceError>>,
)
    requires
        attempts <= MAX_POLL_ATTEMPTS,
        job.status == AssemblyAiTranscriptStatus::Queued || job.status
            == AssemblyAiTranscriptStatus::Processing,
    ensures
        observe_spec(Ok(job)) == PollAction::SleepThenRetry,
        is_unfinished(Ok(job)),
        poll_run(attempts, seq![Ok(job)] + rest) == ({
            let later = poll_run(attempts + 1, rest);
            (later.0 + 1, later.1)
        }),
{
    let fetches = seq![Ok(job)] + rest;
    assert(fetches[0] == Ok::<AssemblyAiTranscript, ServiceError>(job));
    assert(fetches.drop_first() =~= rest);
}

proof fn lemma_unfinished_run(attempts: nat, fetches: Seq<Result<AssemblyAiTranscript, ServiceError>>)
    requires
        attempts <= MAX_POLL_ATTEMPTS + 1,
        forall|i: int| 0 <= i < fetches.len() ==> is_unfinished(#[trigger] fetches[i]),
    ensures
        fetches.len() >= MAX_POLL_ATTEMPTS + 1 - attempts ==> poll_run(attempts, fetches) == (
        (MAX_POLL_ATTEMPTS + 1 - attempts) as nat, Some(PollOutcome::TimedOut)),
        fetches.len() < MAX_POLL_ATTEMPTS + 1 - attempts ==> poll_run(attempts, fetches) == (
        fetches.len(), None::<PollOutcome>),
    decreases fetches.len(),
{
    if attempts <= MAX_POLL_ATTEMPTS && fetches.len() > 0 {
        let rest = fetches.drop_first();
        assert forall|i: int| 0 <= i < rest.len() implies is_unfinished(#[trigger] rest[i]) by {
            assert(rest[i] == fetches[i + 1]);
        }
        assert(is_unfinished(fetches[0]));
        lemma_unfinished_run(attempts + 1, rest);
    }
}

/// Polling a job that never leaves the queued or processing states ends in
/// a timeout after exactly one fetch more than the attempt bound, and not
/// before: with fewer fetches the run is still going.
pub proof fn lemma_poll_times_out(fetches: Seq<Result<AssemblyAiTranscript, ServiceError>>)
    requires
        forall|i: int| 0 <= i < fetches.len() ==> is_unfinished(#[trigger] fetches[i]),
    ensures
        fetches.len() > MAX_POLL_ATTEMPTS ==> poll_run(0, fetches) == (
        (MAX_POLL_ATTEMPTS + 1) as nat, Some(PollOutcome::TimedOut)),
        fetches.len() <= MAX_POLL_ATTEMPTS ==> poll_run(0, fetches) == (
        fetches.len(), None::<PollOutcome>),
{
    lemma_unfinished_run(0, fetches);
}

/// A fetch that finds the job completed or failed ends polling at once,
/// whatever later fetches would have returned.
pub proof fn lemma_terminal_job_ends_polling(
    attempts: nat,
    job: AssemblyAiTranscript,
    rest: Seq<Result<AssemblyAiTranscript, ServiceError>>,
)
    requires
        attempts <= MAX_POLL_ATTEMPTS,
        job.status.is_terminal(),
    ensures
        poll_run(attempts, seq![Ok(job)] + rest) == poll_run(
            attempts,
            seq![Ok::<AssemblyAiTranscript, ServiceError>(job)],
        ),
        poll_run(attempts, seq![Ok(job)] + rest).0 == 1,
        job.status == AssemblyAiTranscriptStatus::Completed ==> poll_run(
            attempts,
            seq![Ok(job)] + rest,
        ).1 == Some(PollOutcome::Completed(job)),
        job.status == AssemblyAiTranscriptStatus::Error ==> poll_run(
            attempts,
            seq![Ok(job)] + rest,
        ).1 == Some(PollOutcome::Failed(job.error)),
{
    let fetches = seq![Ok(job)] + rest;
    assert(fetches[0] == Ok::<AssemblyAiTranscript, ServiceError>(job));
    assert(seq![Ok::<AssemblyAiTranscript, ServiceError>(job)][0] == Ok::<
        AssemblyAiTranscript,
        ServiceError,
    >(job));
}

} // verus!
