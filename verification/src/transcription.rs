//! The exchange with the transcription service: what is asked of it, and
//! what its answer means.
//!
//! The request is sent by the caller.  What came back, or why nothing did, is
//! handed to `transcribe_audio` as an [`Exchange`].

use vstd::prelude::*;
use vstd::string::StringExecFns;
use crate::text::joined;

verus! {

/// One request to the transcription service: a multipart form with the
/// recording as a file part and two text fields, sent with a bearer token.
#[derive(Debug, PartialEq, Eq)]
pub struct TranscriptionRequest {
    /// Where the form is posted.
    pub url: String,
    /// Name of the form's file part.
    pub file_part: String,
    /// Path of the recording that goes into the file part.
    pub file_path: String,
    /// Value of the form's `model` field.
    pub model: String,
    /// Value of the form's `response_format` field.
    pub response_format: String,
    /// The token that authenticates the request.
    pub bearer_token: String,
}

/// A request, as plain values.
pub struct RequestModel {
    pub url: Seq<char>,
    pub file_part: Seq<char>,
    pub file_path: Seq<char>,
    pub model: Seq<char>,
    pub response_format: Seq<char>,
    pub bearer_token: Seq<char>,
}

impl View for TranscriptionRequest {
    type V = RequestModel;

    open spec fn view(&self) -> RequestModel {
        RequestModel {
            url: self.url@,
            file_part: self.file_part@,
            file_path: self.file_path@,
            model: self.model@,
            response_format: self.response_format@,
            bearer_token: self.bearer_token@,
        }
    }
}

/// The request that asks for the text of the recording at `file_path`.
pub open spec fn request_for(file_path: Seq<char>, api_key: Seq<char>) -> RequestModel {
    RequestModel {
        url: "https://api.groq.com/openai/v1/audio/transcriptions"@,
        file_part: "file"@,
        file_path,
        model: "whisper-large-v3-turbo"@,
        response_format: "json"@,
        bearer_token: api_key,
    }
}

/// The request that asks for the text of the recording at `file_path`.
pub fn transcription_request(file_path: &str, api_key: &str) -> (request: TranscriptionRequest)
    ensures
        request@ == request_for(file_path@, api_key@),
{
    TranscriptionRequest {
        url: String::from_str("https://api.groq.com/openai/v1/audio/transcriptions"),
        file_part: String::from_str("file"),
        file_path: String::from_str(file_path),
        model: String::from_str("whisper-large-v3-turbo"),
        response_format: String::from_str("json"),
        bearer_token: String::from_str(api_key),
    }
}

/// What one stop cycle learned from the transcription service.
#[derive(Debug, PartialEq, Eq)]
pub struct TranscriptionResult {
    /// The text; empty after a failure.
    pub text: String,
    /// How long the service took to answer, in milliseconds.
    pub round_trip_ms: u64,
    /// `success` or `error`.
    pub status: String,
    /// Why there is no text.
    pub error: Option<String>,
}

/// A transcription result, as plain values.
pub struct Transcript {
    pub text: Seq<char>,
    pub round_trip_ms: u64,
    pub status: Seq<char>,
    pub error: Option<Seq<char>>,
}

impl View for TranscriptionResult {
    type V = Transcript;

    open spec fn view(&self) -> Transcript {
        Transcript {
            text: self.text@,
            round_trip_ms: self.round_trip_ms,
            status: self.status@,
            error: match self.error {
                Some(reason) => Some(reason@),
                None => None,
            },
        }
    }
}

/// The result of a transcription that gave `text`.
pub open spec fn succeeded(text: Seq<char>, round_trip_ms: u64) -> Transcript {
    Transcript { text, round_trip_ms, status: "success"@, error: None }
}

/// The result of a transcription that failed for `reason`.
pub open spec fn failed(reason: Seq<char>, round_trip_ms: u64) -> Transcript {
    Transcript { text: Seq::empty(), round_trip_ms, status: "error"@, error: Some(reason) }
}

impl TranscriptionResult {
    /// The result of a transcription that gave `text`.
    pub fn success(text: String, round_trip_ms: u64) -> (result: Self)
        ensures
            result@ == succeeded(text@, round_trip_ms),
    {
        TranscriptionResult {
            text,
            round_trip_ms,
            status: String::from_str("success"),
            error: None,
        }
    }

    /// The result of a transcription that failed for `reason`.
    pub fn failure(reason: String, round_trip_ms: u64) -> (result: Self)
        ensures
            result@ == failed(reason@, round_trip_ms),
    {
        TranscriptionResult {
            text: String::new(),
            round_trip_ms,
            status: String::from_str("error"),
            error: Some(reason),
        }
    }

    /// Whether the service gave a text that is worth injecting: the result is
    /// a success and its text is not empty.
    pub fn has_text(&self) -> (usable: bool)
        ensures
            usable == usable_text(self@),
    {
        let success = String::from_str("success");
        self.status == success && !self.text.as_str().is_empty()
    }

    /// A copy of this result.
    pub fn duplicate(&self) -> (copy: Self)
        ensures
            copy@ == self@,
    {
        TranscriptionResult {
            text: self.text.clone(),
            round_trip_ms: self.round_trip_ms,
            status: self.status.clone(),
            error: match &self.error {
                Some(reason) => Some(reason.clone()),
                None => None,
            },
        }
    }
}

/// A result is worth injecting when it is a success with a text.
pub open spec fn usable_text(result: Transcript) -> bool {
    result.status == "success"@ && result.text.len() > 0
}

/// What came of sending a request.
#[derive(Debug, PartialEq, Eq)]
pub enum Exchange {
    /// Nothing was sent: the recording could not be read, or the form could
    /// not be built.
    NotSent { reason: String },
    /// The request was sent and no reply came.
    NoReply { reason: String, round_trip_ms: u64 },
    /// A reply came and its body could not be read.
    UnreadableReply { reason: String, round_trip_ms: u64 },
    /// A reply came: its status code, its status as the service words it,
    /// and its body.
    Reply { status: u16, status_line: String, body: String, round_trip_ms: u64 },
}

/// An exchange, as plain values.
pub enum ExchangeModel {
    NotSent { reason: Seq<char> },
    NoReply { reason: Seq<char>, round_trip_ms: u64 },
    UnreadableReply { reason: Seq<char>, round_trip_ms: u64 },
    Reply { status: u16, status_line: Seq<char>, body: Seq<char>, round_trip_ms: u64 },
}

impl View for Exchange {
    type V = ExchangeModel;

    open spec fn view(&self) -> ExchangeModel {
        match self {
            Exchange::NotSent { reason } => ExchangeModel::NotSent { reason: reason@ },
            Exchange::NoReply { reason, round_trip_ms } => ExchangeModel::NoReply {
                reason: reason@,
                round_trip_ms: *round_trip_ms,
            },
            Exchange::UnreadableReply { reason, round_trip_ms } => ExchangeModel::UnreadableReply {
                reason: reason@,
                round_trip_ms: *round_trip_ms,
            },
            Exchange::Reply { status, status_line, body, round_trip_ms } => ExchangeModel::Reply {
                status: *status,
                status_line: status_line@,
                body: body@,
                round_trip_ms: *round_trip_ms,
            },
        }
    }
}

/// The status codes that stand for success: 200 to 299.
pub open spec fn is_success_status(status: u16) -> bool {
    200 <= status < 300
}

/// Whether a status code stands for success.
pub fn is_success(status: u16) -> (success: bool)
    ensures
        success == is_success_status(status),
{
    200 <= status && status < 300
}

/// What a JSON parser makes of `body` when asked for the member `key`:
/// `Err` with the parser's message when `body` is not one JSON document,
/// `Ok(Some(..))` with the member's text when the document is an object that
/// has a member of that name whose value is a string, `Ok(None)` otherwise.
pub uninterp spec fn json_string_member(body: Seq<char>, key: Seq<char>) -> Result<
    Option<Seq<char>>,
    Seq<char>,
>;

/// A member as it was read, as plain values.
pub open spec fn member_view(read: Result<Option<String>, String>) -> Result<
    Option<Seq<char>>,
    Seq<char>,
> {
    match read {
        Ok(Some(text)) => Ok(Some(text@)),
        Ok(None) => Ok(None),
        Err(reason) => Err(reason@),
    }
}

/// Parses `body` with `serde_json::from_str` into a `serde_json::Value` and
/// reads the member `key` of the document with `Value`'s index operator and
/// `Value::as_str`.  The contract gives this reading its name,
/// `json_string_member`, and claims no more than that the reading depends on
/// `body` and `key` alone.
#[verifier::external_body]
fn read_string_member(body: &str, key: &str) -> (read: Result<Option<String>, String>)
    ensures
        member_view(read) == json_string_member(body@, key@),
{
    match serde_json::from_str::<serde_json::Value>(body) {
        Ok(document) => Ok(document[key].as_str().map(|text| text.to_string())),
        Err(error) => Err(error.to_string()),
    }
}

/// The text of the error for a reply whose status is no success.
pub open spec fn service_error(status_line: Seq<char>, body: Seq<char>) -> Seq<char> {
    "Groq API error: "@ + status_line + " - "@ + body
}

/// What a reply means, given what the parser made of its body: a status that
/// is no success is a failure that quotes status and body; a body that is no
/// JSON is a failure with the parser's message; anything else is a success
/// whose text is the body's `text` member, or empty if it has none.
pub open spec fn reply_meaning(
    status: u16,
    status_line: Seq<char>,
    body: Seq<char>,
    member: Result<Option<Seq<char>>, Seq<char>>,
    round_trip_ms: u64,
) -> Transcript {
    if !is_success_status(status) {
        failed(service_error(status_line, body), round_trip_ms)
    } else {
        match member {
            Err(reason) => failed(reason, round_trip_ms),
            Ok(Some(text)) => succeeded(text, round_trip_ms),
            Ok(None) => succeeded(Seq::empty(), round_trip_ms),
        }
    }
}

/// What an exchange means.
pub open spec fn exchange_meaning(exchange: ExchangeModel) -> Transcript {
    match exchange {
        ExchangeModel::NotSent { reason } => failed(reason, 0),
        ExchangeModel::NoReply { reason, round_trip_ms } => failed(reason, round_trip_ms),
        ExchangeModel::UnreadableReply { reason, round_trip_ms } => failed(reason, round_trip_ms),
        ExchangeModel::Reply { status, status_line, body, round_trip_ms } => reply_meaning(
            status,
            status_line,
            body,
            json_string_member(body, "text"@),
            round_trip_ms,
        ),
    }
}

/// Turns a reply into a result.  `member` is what the parser made of the
/// body's `text` member.
pub fn interpret_reply(
    status: u16,
    status_line: &str,
    body: &str,
    member: Result<Option<String>, String>,
    round_trip_ms: u64,
) -> (result: TranscriptionResult)
    ensures
        result@ == reply_meaning(status, status_line@, body@, member_view(member), round_trip_ms),
{
    if !is_success(status) {
        let mut reason = joined("Groq API error: ", status_line);
        reason.append(" - ");
        reason.append(body);
        return TranscriptionResult::failure(reason, round_trip_ms);
    }
    match member {
        Err(reason) => TranscriptionResult::failure(reason, round_trip_ms),
        Ok(Some(text)) => TranscriptionResult::success(text, round_trip_ms),
        Ok(None) => TranscriptionResult::success(String::new(), round_trip_ms),
    }
}

/// Turns what came of the request into the result of the stop cycle.
pub fn transcribe_audio(exchange: Exchange) -> (result: TranscriptionResult)
    ensures
        result@ == exchange_meaning(exchange@),
{
    match exchange {
        Exchange::NotSent { reason } => TranscriptionResult::failure(reason, 0),
        Exchange::NoReply { reason, round_trip_ms } => TranscriptionResult::failure(
            reason,
            round_trip_ms,
        ),
        Exchange::UnreadableReply { reason, round_trip_ms } => TranscriptionResult::failure(
            reason,
            round_trip_ms,
        ),
        Exchange::Reply { status, status_line, body, round_trip_ms } => {
            let member = read_string_member(body.as_str(), "text");
            interpret_reply(status, status_line.as_str(), body.as_str(), member, round_trip_ms)
        },
    }
}

/// A failure never carries a text, and every result says how long the
/// service took.
pub proof fn lemma_failures_carry_no_text(exchange: ExchangeModel)
    ensures
        exchange_meaning(exchange).status == "error"@ ==> exchange_meaning(exchange).text.len()
            == 0 && exchange_meaning(exchange).error is Some,
        exchange_meaning(exchange).status == "success"@ ==> exchange_meaning(exchange).error
            is None,
        exchange_meaning(exchange).status == "success"@ || exchange_meaning(exchange).status
            == "error"@,
        exchange matches ExchangeModel::Reply { status, .. } && !is_success_status(status)
            ==> !usable_text(exchange_meaning(exchange)),
{
    reveal_strlit("success");
    reveal_strlit("error");
    assert("success"@.len() == 7);
    assert("error"@.len() == 5);
}

} // verus!
