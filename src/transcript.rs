//! Data exchanged with the speech-to-text provider.
use vstd::prelude::*;

verus! {

/// Declares `serde_json::Value`, the JSON value of the provider's answers.
/// The library only carries such values through; it never looks inside.
#[verifier::external_type_specification]
#[verifier::external_body]
pub struct ExValue(serde_json::Value);

/// Answer of the upload endpoint: where the provider stored the audio.
#[derive(Debug, Clone, PartialEq, Eq)]
pub struct AssemblyAiUpload {
    pub upload_url: String,
}

/// State of a transcription job as reported by the provider.
#[derive(Debug, Clone, Copy, PartialEq, Eq, Structural)]
pub enum AssemblyAiTranscriptStatus {
    Queued,
    Processing,
    Completed,
    Error,
}

impl AssemblyAiTranscriptStatus {
    /// The string that stands for this status on the wire.
    pub open spec fn wire(self) -> Seq<char> {
        match self {
            AssemblyAiTranscriptStatus::Queued => "queued"@,
            AssemblyAiTranscriptStatus::Processing => "processing"@,
            AssemblyAiTranscriptStatus::Completed => "completed"@,
            AssemblyAiTranscriptStatus::Error => "error"@,
        }
    }

    /// The status a wire string stands for, if any.
    pub open spec fn parse_wire(s: Seq<char>) -> Option<AssemblyAiTranscriptStatus> {
        if s == "queued"@ {
            Some(AssemblyAiTranscriptStatus::Queued)
        } else if s == "processing"@ {
            Some(AssemblyAiTranscriptStatus::Processing)
        } else if s == "completed"@ {
            Some(AssemblyAiTranscriptStatus::Completed)
        } else if s == "error"@ {
            Some(AssemblyAiTranscriptStatus::Error)
        } else {
            None
        }
    }

    /// Completed and Error are final: a job in either state never changes again.
    pub open spec fn spec_is_terminal(&self) -> bool {
        *self == AssemblyAiTranscriptStatus::Completed || *self == AssemblyAiTranscriptStatus::Error
    }

    #[verifier::when_used_as_spec(spec_is_terminal)]
    pub fn is_terminal(&self) -> (r: bool)
        ensures
            r == self.spec_is_terminal(),
    {
        match self {
            AssemblyAiTranscriptStatus::Completed => true,
            AssemblyAiTranscriptStatus::Error => true,
            _ => false,
        }
    }

    /// Encodes the status as its wire string.
    pub fn to_wire(&self) -> (r: String)
        ensures
            r@ == self.wire(),
    {
        match self {
            AssemblyAiTranscriptStatus::Queued => String::from_str("queued"),
            AssemblyAiTranscriptStatus::Processing => String::from_str("processing"),
            AssemblyAiTranscriptStatus::Completed => String::from_str("completed"),
            AssemblyAiTranscriptStatus::Error => String::from_str("error"),
        }
    }

    /// Decodes a wire string; any string but the four known ones is refused.
    pub fn from_wire(s: &str) -> (r: Option<AssemblyAiTranscriptStatus>)
        ensures
            r == Self::parse_wire(s@),
    {
        let s = String::from_str(s);
        if s == String::from_str("queued") {
            Some(AssemblyAiTranscriptStatus::Queued)
        } else if s == String::from_str("processing") {
            Some(AssemblyAiTranscriptStatus::Processing)
        } else if s == String::from_str("completed") {
            Some(AssemblyAiTranscriptStatus::Completed)
        } else if s == String::from_str("error") {
            Some(AssemblyAiTranscriptStatus::Error)
        } else {
            None
        }
    }
}

/// Decoding the wire string of a status gives that status back, and a wire
/// string that decodes to a status is exactly that status's wire string.
pub proof fn lemma_status_wire_round_trip(st: AssemblyAiTranscriptStatus, s: Seq<char>)
    ensures
        AssemblyAiTranscriptStatus::parse_wire(st.wire()) == Some(st),
        AssemblyAiTranscriptStatus::parse_wire(s) == Some(st) ==> st.wire() == s,
{
    reveal_strlit("queued");
    reveal_strlit("processing");
    reveal_strlit("completed");
    reveal_strlit("error");
    assert("queued"@.len() == 6);
    assert("processing"@.len() == 10);
    assert("completed"@.len() == 9);
    assert("error"@.len() == 5);
}

/// A snapshot of a transcription job. Only the identifier, the status, the
/// transcript and the error message are read; every other field the provider
/// sends travels in `passthrough` as one JSON object.
#[derive(Debug)]
pub struct AssemblyAiTranscript {
    pub id: String,
    pub status: AssemblyAiTranscriptStatus,
    pub text: Option<String>,
    pub error: Option<String>,
    pub passthrough: serde_json::Value,
}

/// Start and end of a highlighted passage, in milliseconds.
#[derive(Debug, Clone, Copy, PartialEq, Eq, Structural)]
pub struct Timestamp {
    pub start: i64,
    pub end: i64,
}

/// Start and end of a labelled passage, in milliseconds.
#[derive(Debug, Clone, Copy, PartialEq, Eq, Structural)]
pub struct Timestamp2 {
    pub start: i64,
    pub end: i64,
}

} // verus!
