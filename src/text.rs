//! Strings the pipeline builds: download URLs, job URLs, the summary prompt.
use vstd::prelude::*;

verus! {

/// Base of the chat platform's file download URLs.
pub const FILE_URL_BASE: &'static str = "https://api.telegram.org/file/bot";

/// Endpoint that receives raw audio bytes.
pub const UPLOAD_ENDPOINT: &'static str = "https://api.assemblyai.com/v2/upload";

/// Endpoint that creates transcription jobs; a job is read at this URL,
/// followed by a slash and its identifier.
pub const TRANSCRIPT_ENDPOINT: &'static str = "https://api.assemblyai.com/v2/transcript";

/// Delimiter line of the summary prompt; it is also the completion's stop sequence.
pub const PROMPT_DELIMITER: &'static str = "----";

/// What `str::trim` returns for a string: it leaves out leading and trailing
/// white space.
pub uninterp spec fn trimmed(s: Seq<char>) -> Seq<char>;

/// Relies on `str::trim`: the result depends on the characters alone, and
/// the trimmed form of the empty string is empty.
#[verifier::external_body]
pub(crate) fn trim_text(s: &str) -> (r: String)
    ensures
        r@ == trimmed(s@),
        s@.len() == 0 ==> r@.len() == 0,
{
    s.trim().to_string()
}

/// Download URL of a file of the chat platform, from the bot token and the
/// file's path.
pub open spec fn file_url(token: Seq<char>, file_path: Seq<char>) -> Seq<char> {
    FILE_URL_BASE@ + token + "/"@ + file_path
}

/// URL at which the job with the given identifier is read.
pub open spec fn job_url(job_id: Seq<char>) -> Seq<char> {
    TRANSCRIPT_ENDPOINT@ + "/"@ + job_id
}

/// The prompt that asks for a summary of `text`: the transcript stands
/// between delimiter lines, and the prompt ends where the summary begins.
pub open spec fn summary_prompt(text: Seq<char>) -> Seq<char> {
    "----\nMessage from user:\n----"@ + text + "\n----\nSummary:\n----"@
}

pub fn build_file_url(token: &str, file_path: &str) -> (r: String)
    ensures
        r@ == file_url(token@, file_path@),
{
    let mut url = String::from_str(FILE_URL_BASE);
    url.append(token);
    url.append("/");
    url.append(file_path);
    url
}

pub fn build_transcript_url(job_id: &str) -> (r: String)
    ensures
        r@ == job_url(job_id@),
{
    let mut url = String::from_str(TRANSCRIPT_ENDPOINT);
    url.append("/");
    url.append(job_id);
    url
}

pub fn build_gpt3_prompt(text: &str) -> (r: String)
    ensures
        r@ == summary_prompt(text@),
{
    let mut prompt = String::from_str("----\nMessage from user:\n----");
    prompt.append(text);
    prompt.append("\n----\nSummary:\n----");
    prompt
}

/// Appends one received chunk of a download to the bytes gathered so far.
pub fn append_chunk(buffer: &mut Vec<u8>, chunk: &[u8])
    ensures
        final(buffer)@ == old(buffer)@ + chunk@,
{
    let mut i: usize = 0;
    while i < chunk.len()
        invariant
            i <= chunk@.len(),
            buffer@ == old(buffer)@ + chunk@.subrange(0, i as int),
        decreases chunk@.len() - i,
    {
        buffer.push(chunk[i]);
        i = i + 1;
        assert(chunk@.subrange(0, i as int) == chunk@.subrange(0, i - 1) + seq![chunk@[i - 1]]);
    }
    assert(chunk@.subrange(0, i as int) == chunk@);
}

/// A credential: the configured value where one is set, else the fallback.
pub fn token_or_default(configured: Option<String>, fallback: &str) -> (r: String)
    ensures
        r@ == (match configured {
            Some(v) => v@,
            None => fallback@,
        }),
{
    match configured {
        Some(v) => v,
        None => String::from_str(fallback),
    }
}

} // verus!
