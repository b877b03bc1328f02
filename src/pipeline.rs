//! Decisions of the per-message pipeline: download, upload, job submission,
//! polling, summary and reply.
//!
//! The pipeline is a state machine. The caller performs each action it
//! returns and hands the result back as the next event; any failure
//! abandons the current message only.
use vstd::prelude::*;
use crate::poll::{
    next_spec, observe_spec, PollAction, PollOutcome, Poller, ServiceError, MAX_POLL_ATTEMPTS,
    POLL_INTERVAL_SECS,
};
use crate::text::{
    build_file_url, build_gpt3_prompt, file_url, summary_prompt, trim_text, trimmed,
};
use crate::transcript::{AssemblyAiTranscript, AssemblyAiTranscriptStatus, AssemblyAiUpload};

verus! {

/// An inbound chat message, as far as the pipeline cares.
#[derive(Debug)]
pub enum InboundMessage {
    Audio { file_id: String },
    Voice { file_id: String },
    /// Any other kind of message; it is ignored.
    Other,
}

/// Where the pipeline stands, and what it waits for.
#[derive(Debug)]
pub enum Stage {
    /// Waits for an inbound message.
    AwaitingMessage,
    /// Waits for the file's path on the chat platform.
    ResolvingFile,
    /// Waits for the audio bytes.
    Downloading,
    /// Waits for the provider's upload handle.
    Uploading,
    /// Waits for the created job.
    CreatingJob,
    /// Waits for a snapshot of the job.
    Polling { job_id: String, poller: Poller },
    /// Waits for the end of the pause between two fetches.
    Waiting { job_id: String, poller: Poller },
    /// Waits for the summary of the transcript.
    Summarizing { text: String },
    /// The message has been answered or abandoned.
    Done,
}

/// The result of the action last asked for.
#[derive(Debug)]
pub enum PipelineEvent {
    Received(InboundMessage),
    FileResolved(Result<Option<String>, ServiceError>),
    Downloaded(Result<Vec<u8>, ServiceError>),
    Uploaded(Result<AssemblyAiUpload, ServiceError>),
    JobCreated(Result<AssemblyAiTranscript, ServiceError>),
    JobFetched(Result<AssemblyAiTranscript, ServiceError>),
    Slept,
    /// The texts of the summary's candidates, best first.
    Summarized(Result<Vec<String>, ServiceError>),
}

/// Why a message was dropped without a reply.
#[derive(Debug)]
pub enum Abandoned {
    NotAudio,
    NoFilePath,
    ResolveFailed(ServiceError),
    DownloadFailed(ServiceError),
    UploadFailed(ServiceError),
    SubmitFailed(ServiceError),
    PollFailed(ServiceError),
    /// The provider reported the job as failed, with its message.
    ProviderError(Option<String>),
    TimedOut,
    /// The job completed without a transcript.
    NoTranscript,
    /// An event came that the current stage does not wait for.
    UnexpectedEvent,
}

/// What the caller does next.
#[derive(Debug)]
pub enum PipelineAction {
    /// Look up the path of the file with this identifier.
    ResolveFile(String),
    /// Download the bytes at this URL.
    Download(String),
    /// Upload these bytes to the speech-to-text provider.
    Upload(Vec<u8>),
    /// Create a transcription job for the audio at this URL.
    CreateJob(String),
    /// Fetch the job with this identifier.
    FetchJob(String),
    /// Sleep this many seconds.
    Sleep(u64),
    /// Ask the language model to complete this prompt.
    Summarize(String),
    /// Reply with this text in the message's chat; the message is done.
    Reply(String),
    /// Drop the message without a reply.
    Abandon(Abandoned),
}

/// The pipeline of one inbound message.
#[derive(Debug)]
pub struct Pipeline {
    /// Token of the chat bot, part of every download URL.
    pub bot_token: String,
    pub stage: Stage,
}

/// What an event does to a stage: `next` is the stage after it and `action`
/// what the caller is asked to do.
pub open spec fn step_spec(
    token: Seq<char>,
    stage: Stage,
    event: PipelineEvent,
    next: Stage,
    action: PipelineAction,
) -> bool {
    match (stage, event) {
        (Stage::AwaitingMessage, PipelineEvent::Received(m)) => match m {
            InboundMessage::Audio { file_id } => next == Stage::ResolvingFile && action
                == PipelineAction::ResolveFile(file_id),
            InboundMessage::Voice { file_id } => next == Stage::ResolvingFile && action
                == PipelineAction::ResolveFile(file_id),
            InboundMessage::Other => next == Stage::Done && action == PipelineAction::Abandon(
                Abandoned::NotAudio,
            ),
        },
        (Stage::ResolvingFile, PipelineEvent::FileResolved(r)) => match r {
            Ok(Some(path)) => {
                &&& next == Stage::Downloading
                &&& action matches PipelineAction::Download(url)
                &&& url@ == file_url(token, path@)
            },
            Ok(None) => next == Stage::Done && action == PipelineAction::Abandon(
                Abandoned::NoFilePath,
            ),
            Err(e) => next == Stage::Done && action == PipelineAction::Abandon(
                Abandoned::ResolveFailed(e),
            ),
        },
        (Stage::Downloading, PipelineEvent::Downloaded(r)) => match r {
            Ok(bytes) => next == Stage::Uploading && action == PipelineAction::Upload(bytes),
            Err(e) => next == Stage::Done && action == PipelineAction::Abandon(
                Abandoned::DownloadFailed(e),
            ),
        },
        (Stage::Uploading, PipelineEvent::Uploaded(r)) => match r {
            Ok(upload) => next == Stage::CreatingJob && action == PipelineAction::CreateJob(
                upload.upload_url,
            ),
            Err(e) => next == Stage::Done && action == PipelineAction::Abandon(
                Abandoned::UploadFailed(e),
            ),
        },
        (Stage::CreatingJob, PipelineEvent::JobCreated(r)) => match r {
            Ok(job) => {
                &&& next matches Stage::Polling { job_id, poller }
                &&& job_id@ == job.id@
                &&& poller@ == 0
                &&& action matches PipelineAction::FetchJob(id)
                &&& id@ == job.id@
            },
            Err(e) => next == Stage::Done && action == PipelineAction::Abandon(
                Abandoned::SubmitFailed(e),
            ),
        },
        (Stage::Polling { job_id, poller }, PipelineEvent::JobFetched(r)) => match observe_spec(
            r,
        ) {
            PollAction::Finish(PollOutcome::Completed(job)) => match job.text {
                Some(text) => {
                    &&& next == (Stage::Summarizing { text })
                    &&& action matches PipelineAction::Summarize(prompt)
                    &&& prompt@ == summary_prompt(text@)
                },
                None => next == Stage::Done && action == PipelineAction::Abandon(
                    Abandoned::NoTranscript,
                ),
            },
            PollAction::Finish(PollOutcome::Failed(msg)) => next == Stage::Done && action
                == PipelineAction::Abandon(Abandoned::ProviderError(msg)),
            PollAction::Finish(PollOutcome::FetchFailed(e)) => next == Stage::Done && action
                == PipelineAction::Abandon(Abandoned::PollFailed(e)),
            PollAction::Finish(PollOutcome::TimedOut) => next == Stage::Done && action
                == PipelineAction::Abandon(Abandoned::TimedOut),
            _ => {
                &&& next matches Stage::Waiting { job_id: j, poller: p }
                &&& j == job_id
                &&& p@ == poller@ + 1
                &&& action == PipelineAction::Sleep(POLL_INTERVAL_SECS)
            },
        },
        (Stage::Waiting { job_id, poller }, PipelineEvent::Slept) => match next_spec(poller@) {
            PollAction::FetchJob => {
                &&& next == (Stage::Polling { job_id, poller })
                &&& action matches PipelineAction::FetchJob(id)
                &&& id@ == job_id@
            },
            _ => next == Stage::Done && action == PipelineAction::Abandon(Abandoned::TimedOut),
        },
        (Stage::Summarizing { text }, PipelineEvent::Summarized(r)) => {
            &&& next == Stage::Done
            &&& action matches PipelineAction::Reply(reply)
            &&& reply@ == reply_text(text@, r)
        },
        _ => next == Stage::Done && action == PipelineAction::Abandon(Abandoned::UnexpectedEvent),
    }
}

/// The reply to a transcript: the first summary candidate, trimmed, where
/// the summary came back with one; else the transcript itself, trimmed.
pub open spec fn reply_text(transcript: Seq<char>, summary: Result<Vec<String>, ServiceError>) -> Seq<
    char,
> {
    match summary {
        Ok(candidates) => if candidates.len() > 0 {
            trimmed(candidates[0]@)
        } else {
            trimmed(transcript)
        },
        Err(_) => trimmed(transcript),
    }
}

/// A job that the provider reports as failed ends the message without a
/// reply, and a finished pipeline never asks for one afterwards.
pub proof fn lemma_failed_job_gets_no_reply(
    token: Seq<char>,
    job_id: String,
    poller: Poller,
    job: AssemblyAiTranscript,
    next: Stage,
    action: PipelineAction,
)
    requires
        job.status == AssemblyAiTranscriptStatus::Error,
        step_spec(
            token,
            Stage::Polling { job_id, poller },
            PipelineEvent::JobFetched(Ok(job)),
            next,
            action,
        ),
    ensures
        next == Stage::Done,
        action == PipelineAction::Abandon(Abandoned::ProviderError(job.error)),
        forall|event: PipelineEvent, later: Stage, then: PipelineAction|
            #[trigger] step_spec(token, next, event, later, then) ==> later == Stage::Done
                && then == PipelineAction::Abandon(Abandoned::UnexpectedEvent),
{
}

/// Where summarising fails or yields no candidate, the reply is the
/// transcript itself, trimmed.
pub proof fn lemma_summary_fallback(
    token: Seq<char>,
    text: String,
    summary: Result<Vec<String>, ServiceError>,
    next: Stage,
    action: PipelineAction,
)
    requires
        summary is Err || summary->Ok_0.len() == 0,
        step_spec(token, Stage::Summarizing { text }, PipelineEvent::Summarized(summary), next, action),
    ensures
        next == Stage::Done,
        action is Reply,
        action->Reply_0@ == trimmed(text@),
{
}

impl Pipeline {
    /// The stage's counter stays within the bound while a fetch is awaited.
    pub open spec fn wf(&self) -> bool {
        self.stage matches Stage::Polling { poller, .. } ==> poller@ <= MAX_POLL_ATTEMPTS
    }

    pub fn new(bot_token: String) -> (r: Pipeline)
        ensures
            r.wf(),
            r.bot_token == bot_token,
            r.stage == Stage::AwaitingMessage,
    {
        Pipeline { bot_token, stage: Stage::AwaitingMessage }
    }

    pub fn is_done(&self) -> (r: bool)
        ensures
            r == (self.stage == Stage::Done),
    {
        match self.stage {
            Stage::Done => true,
            _ => false,
        }
    }

    /// Takes the result of the last action and decides the next one.
    pub fn step(self, event: PipelineEvent) -> (r: (Pipeline, PipelineAction))
        requires
            self.wf(),
        ensures
            r.0.wf(),
            r.0.bot_token == self.bot_token,
            step_spec(self.bot_token@, self.stage, event, r.0.stage, r.1),
    {
        let Pipeline { bot_token, stage } = self;
        let (next, action) = match stage {
            Stage::AwaitingMessage => match event {
                PipelineEvent::Received(InboundMessage::Audio { file_id }) => (
                    Stage::ResolvingFile,
                    PipelineAction::ResolveFile(file_id),
                ),
                PipelineEvent::Received(InboundMessage::Voice { file_id }) => (
                    Stage::ResolvingFile,
                    PipelineAction::ResolveFile(file_id),
                ),
                PipelineEvent::Received(InboundMessage::Other) => (
                    Stage::Done,
                    PipelineAction::Abandon(Abandoned::NotAudio),
                ),
                _ => (Stage::Done, PipelineAction::Abandon(Abandoned::UnexpectedEvent)),
            },
            Stage::ResolvingFile => match event {
                PipelineEvent::FileResolved(Ok(Some(path))) => {
                    let url = build_file_url(bot_token.as_str(), path.as_str());
                    (Stage::Downloading, PipelineAction::Download(url))
                },
                PipelineEvent::FileResolved(Ok(None)) => (
                    Stage::Done,
                    PipelineAction::Abandon(Abandoned::NoFilePath),
                ),
                PipelineEvent::FileResolved(Err(e)) => (
                    Stage::Done,
                    PipelineAction::Abandon(Abandoned::ResolveFailed(e)),
                ),
                _ => (Stage::Done, PipelineAction::Abandon(Abandoned::UnexpectedEvent)),
            },
            Stage::Downloading => match event {
                PipelineEvent::Downloaded(Ok(bytes)) => (
                    Stage::Uploading,
                    PipelineAction::Upload(bytes),
                ),
                PipelineEvent::Downloaded(Err(e)) => (
                    Stage::Done,
                    PipelineAction::Abandon(Abandoned::DownloadFailed(e)),
                ),
                _ => (Stage::Done, PipelineAction::Abandon(Abandoned::UnexpectedEvent)),
            },
            Stage::Uploading => match event {
                PipelineEvent::Uploaded(Ok(upload)) => (
                    Stage::CreatingJob,
                    PipelineAction::CreateJob(upload.upload_url),
                ),
                PipelineEvent::Uploaded(Err(e)) => (
                    Stage::Done,
                    PipelineAction::Abandon(Abandoned::UploadFailed(e)),
                ),
                _ => (Stage::Done, PipelineAction::Abandon(Abandoned::UnexpectedEvent)),
            },
            Stage::CreatingJob => match event {
                PipelineEvent::JobCreated(Ok(job)) => {
                    let id = job.id.clone();
                    (
                        Stage::Polling { job_id: job.id, poller: Poller::new() },
                        PipelineAction::FetchJob(id),
                    )
                },
                PipelineEvent::JobCreated(Err(e)) => (
                    Stage::Done,
                    PipelineAction::Abandon(Abandoned::SubmitFailed(e)),
                ),
                _ => (Stage::Done, PipelineAction::Abandon(Abandoned::UnexpectedEvent)),
            },
            Stage::Polling { job_id, poller } => match event {
                PipelineEvent::JobFetched(fetched) => {
                    let mut poller = poller;
                    match poller.observe(fetched) {
                        PollAction::Finish(PollOutcome::Completed(job)) => match job.text {
                            Some(text) => {
                                let prompt = build_gpt3_prompt(text.as_str());
                                (Stage::Summarizing { text }, PipelineAction::Summarize(prompt))
                            },
                            None => (
                                Stage::Done,
                                PipelineAction::Abandon(Abandoned::NoTranscript),
                            ),
                        },
                        PollAction::Finish(PollOutcome::Failed(msg)) => (
                            Stage::Done,
                            PipelineAction::Abandon(Abandoned::ProviderError(msg)),
                        ),
                        PollAction::Finish(PollOutcome::FetchFailed(e)) => (
                            Stage::Done,
                            PipelineAction::Abandon(Abandoned::PollFailed(e)),
                        ),
                        PollAction::Finish(PollOutcome::TimedOut) => (
                            Stage::Done,
                            PipelineAction::Abandon(Abandoned::TimedOut),
                        ),
                        _ => (
                            Stage::Waiting { job_id, poller },
                            PipelineAction::Sleep(POLL_INTERVAL_SECS),
                        ),
                    }
                },
                _ => (Stage::Done, PipelineAction::Abandon(Abandoned::UnexpectedEvent)),
            },
            Stage::Waiting { job_id, poller } => match event {
                PipelineEvent::Slept => match poller.next() {
                    PollAction::FetchJob => {
                        let id = job_id.clone();
                        (Stage::Polling { job_id, poller }, PipelineAction::FetchJob(id))
                    },
                    _ => (Stage::Done, PipelineAction::Abandon(Abandoned::TimedOut)),
                },
                _ => (Stage::Done, PipelineAction::Abandon(Abandoned::UnexpectedEvent)),
            },
            Stage::Summarizing { text } => match event {
                PipelineEvent::Summarized(r) => {
                    let reply = match r {
                        Ok(candidates) => if candidates.len() > 0 {
                            trim_text(candidates[0].as_str())
                        } else {
                            trim_text(text.as_str())
                        },
                        Err(_) => trim_text(text.as_str()),
                    };
                    (Stage::Done, PipelineAction::Reply(reply))
                },
                _ => (Stage::Done, PipelineAction::Abandon(Abandoned::UnexpectedEvent)),
            },
            Stage::Done => (Stage::Done, PipelineAction::Abandon(Abandoned::UnexpectedEvent)),
        };
        (Pipeline { bot_token, stage: next }, action)
    }
}

} // verus!
