//! What becomes of a response once its status and its body are known.

use crate::api::whisper::{WhisperResponse, WhisperResponseFormat};
use crate::error::{SdkError, SdkErrorView};
use crate::json::{json_string_member, json_string_member_of};
use crate::text::opt_text;
use vstd::prelude::*;
use vstd::string::*;

verus! {

/// The status is a client error or a server error.
pub open spec fn is_failure(status: u16) -> bool {
    400 <= status < 600
}

/// Whether a response with this status is a failure, whose body is then to be
/// read as text and reported.
pub fn is_failure_status(status: u16) -> (failed: bool)
    ensures
        failed == is_failure(status),
{
    400 <= status && status < 600
}

/// What a response with this status and this text stands for: the text, or,
/// for a client or server error, the failure that carries the text.
pub open spec fn checked(status: u16, body: Seq<char>) -> Result<Seq<char>, SdkErrorView> {
    if is_failure(status) {
        Err(SdkErrorView::Api { body })
    } else {
        Ok(body)
    }
}

/// What a checked text holds.
pub open spec fn text_view(out: Result<String, SdkError>) -> Result<Seq<char>, SdkErrorView> {
    match out {
        Ok(text) => Ok(text@),
        Err(e) => Err(e@),
    }
}

/// Accepts the text of a response unless its status is a client or server
/// error; the error then carries the text.
pub fn check_response(status: u16, body: String) -> (out: Result<String, SdkError>)
    ensures
        text_view(out) == checked(status, body@),
{
    if is_failure_status(status) {
        Err(SdkError::Api { body })
    } else {
        Ok(body)
    }
}

/// The transcript that the text of a successful response stands for, given
/// what the response, read as JSON, holds under `text`: for the JSON format
/// that member, and for every other format the text itself.
pub open spec fn transcript(
    format: WhisperResponseFormat,
    body: Seq<char>,
    member: Option<Seq<char>>,
) -> Result<Seq<char>, SdkErrorView> {
    if format == WhisperResponseFormat::Json {
        match member {
            Some(text) => Ok(text),
            None => Err(SdkErrorView::Decode { body }),
        }
    } else {
        Ok(body)
    }
}

/// The transcript that a response with this status and this text stands for:
/// the failure for an error status, and otherwise the transcript.
pub open spec fn received(
    format: WhisperResponseFormat,
    status: u16,
    body: Seq<char>,
    member: Option<Seq<char>>,
) -> Result<Seq<char>, SdkErrorView> {
    if is_failure(status) {
        Err(SdkErrorView::Api { body })
    } else {
        transcript(format, body, member)
    }
}

/// What a transcript or the failure to get one holds.
pub open spec fn transcript_view(
    out: Result<WhisperResponse, SdkError>,
) -> Result<Seq<char>, SdkErrorView> {
    match out {
        Ok(res) => Ok(res.text@),
        Err(e) => Err(e@),
    }
}

impl WhisperResponse {
    /// A transcript with this text.
    pub fn from_text(text: String) -> (out: WhisperResponse)
        ensures
            out.text@ == text@,
    {
        WhisperResponse { text }
    }

    /// The transcript of a successful response, where `member` is what the
    /// response, read as JSON, holds under `text`.
    pub fn from_parts(
        format: WhisperResponseFormat,
        body: String,
        member: Option<String>,
    ) -> (out: Result<WhisperResponse, SdkError>)
        ensures
            transcript_view(out) == transcript(format, body@, opt_text(member)),
    {
        match format {
            WhisperResponseFormat::Json => match member {
                Some(text) => Ok(WhisperResponse { text }),
                None => Err(SdkError::Decode { body }),
            },
            _ => Ok(WhisperResponse { text: body }),
        }
    }

    /// Reads the transcript from the text of a successful response: from the
    /// member `text` of the JSON object where the JSON format was asked for,
    /// and otherwise the whole text as it is.
    pub fn parse(
        format: WhisperResponseFormat,
        body: String,
    ) -> (out: Result<WhisperResponse, SdkError>)
        ensures
            transcript_view(out) == transcript(
                format,
                body@,
                json_string_member_of(body@, "text"@),
            ),
    {
        let member = match format {
            WhisperResponseFormat::Json => json_string_member(body.as_str(), "text"),
            _ => None,
        };
        WhisperResponse::from_parts(format, body, member)
    }

    /// What becomes of the response to a transcription or translation: a
    /// failure for an error status, and otherwise the transcript.
    pub fn from_response(
        format: WhisperResponseFormat,
        status: u16,
        body: String,
    ) -> (out: Result<WhisperResponse, SdkError>)
        ensures
            transcript_view(out) == received(
                format,
                status,
                body@,
                json_string_member_of(body@, "text"@),
            ),
    {
        match check_response(status, body) {
            Ok(text) => WhisperResponse::parse(format, text),
            Err(e) => Err(e),
        }
    }
}

} // verus!
