//! The caller-facing surface: uniform success/error response shapes for the
//! shell that exposes start, stop and transcribe, and the small computations
//! around the transcription upload.
//!
//! The shell itself — remote-invokable commands, JSON serialisation, the
//! HTTP client — lives outside this crate and hands plain values in.

use vstd::prelude::*;
use vstd::string::StringExecFns;
use crate::errors::{RecorderError, spec_message};
use crate::naming::{dec_digits, u64_dec_string};

verus! {

/// What a start or stop call reports back to the caller.
pub struct RecordingResponse {
    pub success: bool,
    pub file_path: Option<String>,
    pub error: Option<String>,
}

/// Shapes a start result: a fresh destination path on success, otherwise
/// the failure prefixed as a start failure.
pub fn start_response(r: Result<String, RecorderError>) -> (resp: RecordingResponse)
    ensures
        (match r {
            Ok(p) => resp.success && resp.file_path == Some(p) && resp.error is None,
            Err(e) => !resp.success && resp.file_path is None && (match resp.error {
                Some(m) => m@ == "Failed to start recording: "@ + spec_message(e),
                None => false,
            }),
        }),
{
    match r {
        Ok(p) => RecordingResponse { success: true, file_path: Some(p), error: None },
        Err(e) => {
            let mut m = String::from_str("Failed to start recording: ");
            m.append(e.message());
            RecordingResponse { success: false, file_path: None, error: Some(m) }
        },
    }
}

/// Shapes a stop result: the finished file's path on success, the
/// non-fatal "not recording" status when there was nothing to stop, and
/// otherwise the failure prefixed as a stop failure.
pub fn stop_response(r: Result<Option<String>, RecorderError>) -> (resp: RecordingResponse)
    ensures
        (match r {
            Ok(Some(p)) => resp.success && resp.file_path == Some(p) && resp.error is None,
            Ok(None) => !resp.success && resp.file_path is None && (match resp.error {
                Some(m) => m@ == spec_message(RecorderError::NotRecording),
                None => false,
            }),
            Err(e) => !resp.success && resp.file_path is None && (match resp.error {
                Some(m) => m@ == "Failed to stop recording: "@ + spec_message(e),
                None => false,
            }),
        }),
{
    match r {
        Ok(Some(p)) => RecordingResponse { success: true, file_path: Some(p), error: None },
        Ok(None) => {
            let m = RecorderError::NotRecording.message().to_owned();
            RecordingResponse { success: false, file_path: None, error: Some(m) }
        },
        Err(e) => {
            let mut m = String::from_str("Failed to stop recording: ");
            m.append(e.message());
            RecordingResponse { success: false, file_path: None, error: Some(m) }
        },
    }
}

/// What the transcription service reported, already decoded to plain
/// values: each field as the service may or may not have sent it, with any
/// segment list carried through as raw text.
pub struct TranscriptionReply {
    pub success: Option<bool>,
    pub text: Option<String>,
    pub error: Option<String>,
    pub segments: Option<String>,
}

/// What a transcribe call reports back to the caller.
pub struct TranscriptionResponse {
    pub success: bool,
    pub text: String,
    pub error: Option<String>,
    pub segments: Option<String>,
}

/// Shapes a decoded service reply: a missing success flag counts as
/// failure, missing text as empty text, and error and segments pass
/// through.
pub fn shape_transcription(reply: TranscriptionReply) -> (resp: TranscriptionResponse)
    ensures
        resp.success == (reply.success == Some(true)),
        (match reply.text {
            Some(t) => resp.text == t,
            None => resp.text@ == Seq::<char>::empty(),
        }),
        resp.error == reply.error,
        resp.segments == reply.segments,
{
    let success = match reply.success {
        Some(b) => b,
        None => false,
    };
    let text = match reply.text {
        Some(t) => t,
        None => String::new(),
    };
    TranscriptionResponse { success, text, error: reply.error, segments: reply.segments }
}

/// Shapes a transcribe attempt that failed before or at the upload.
pub fn transcription_failure_response(e: RecorderError) -> (resp: TranscriptionResponse)
    ensures
        !resp.success,
        resp.text@ == Seq::<char>::empty(),
        (match resp.error {
            Some(m) => m@ == spec_message(e),
            None => false,
        }),
        resp.segments is None,
{
    TranscriptionResponse {
        success: false,
        text: String::new(),
        error: Some(e.message().to_owned()),
        segments: None,
    }
}

/// Shapes a transcribe attempt that the service answered with a failing
/// HTTP status: the surfaced message carries the status itself.
pub fn transcription_http_failure_response(status: u16) -> (resp: TranscriptionResponse)
    ensures
        !resp.success,
        resp.text@ == Seq::<char>::empty(),
        (match resp.error {
            Some(m) => m@ == spec_message(RecorderError::TranscriptionError) + ": HTTP "@
                + dec_digits(status as nat),
            None => false,
        }),
        resp.segments is None,
{
    let mut m = RecorderError::TranscriptionError.message().to_owned();
    m.append(": HTTP ");
    let digits = u64_dec_string(status as u64);
    m.append(digits.as_str());
    TranscriptionResponse { success: false, text: String::new(), error: Some(m), segments: None }
}

/// The upload endpoint: the configured base URL plus the fixed path suffix.
pub fn transcribe_url(base: &str) -> (r: String)
    ensures
        r@ == base@ + "/transcribe"@,
{
    let mut s = base.to_owned();
    s.append("/transcribe");
    s
}

/// The service call succeeds exactly on a 2xx status.
pub open spec fn spec_http_success(status: u16) -> bool {
    200 <= status < 300
}

/// Classifies the upload's HTTP status: any non-2xx response is a
/// transcription failure.
pub fn classify_transcribe_status(status: u16) -> (r: Result<(), RecorderError>)
    ensures
        r is Ok <==> spec_http_success(status),
        r is Err ==> r == Err::<(), RecorderError>(RecorderError::TranscriptionError),
{
    if 200 <= status && status < 300 {
        Ok(())
    } else {
        Err(RecorderError::TranscriptionError)
    }
}

} // verus!
