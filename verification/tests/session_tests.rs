use audio_capture::errors::RecorderError;
use audio_capture::naming::{recording_file_name, u64_dec_string};
use audio_capture::response::{
    classify_transcribe_status, shape_transcription, start_response, stop_response,
    transcribe_url, transcription_failure_response, transcription_http_failure_response,
    TranscriptionReply,
};
use audio_capture::session::AudioRecorder;

#[test]
fn start_is_rejected_while_recording() {
    let mut rec = AudioRecorder::new();
    let first = rec.start_with_timestamp(1000);
    assert_eq!(first.unwrap(), "recording_1000.wav".to_string());
    let second = rec.start_with_timestamp(2000);
    assert_eq!(second.unwrap_err(), RecorderError::AlreadyRecording);
    // The rejected start must not have touched the active recording's path.
    assert_eq!(rec.get_recording_file().unwrap(), "recording_1000.wav".to_string());
}

#[test]
fn stop_while_idle_is_a_noop() {
    let mut rec = AudioRecorder::new();
    assert_eq!(rec.stop_recording().unwrap(), None);
    assert_eq!(rec.get_recording_file(), None);
}

#[test]
fn stop_after_cycle_keeps_path_queryable() {
    let mut rec = AudioRecorder::new();
    let path = rec.start_with_timestamp(42).unwrap();
    assert_eq!(path, "recording_42.wav".to_string());
    let stopped = rec.stop_recording().unwrap();
    assert_eq!(stopped, Some("recording_42.wav".to_string()));
    // A second stop is a no-op, but the last path stays queryable.
    assert_eq!(rec.stop_recording().unwrap(), None);
    assert_eq!(rec.get_recording_file(), Some("recording_42.wav".to_string()));
}

#[test]
fn restart_overwrites_previous_path() {
    let mut rec = AudioRecorder::new();
    rec.start_with_timestamp(1).unwrap();
    rec.stop_recording().unwrap();
    let second = rec.start_with_timestamp(2).unwrap();
    assert_eq!(second, "recording_2.wav".to_string());
    assert_eq!(rec.get_recording_file(), Some("recording_2.wav".to_string()));
}

#[test]
fn clock_based_start_yields_wav_name() {
    let mut rec = AudioRecorder::new();
    let path = rec.start_recording().unwrap();
    assert!(path.starts_with("recording_"));
    assert!(path.ends_with(".wav"));
    let rejected = rec.start_recording();
    assert_eq!(rejected.unwrap_err(), RecorderError::AlreadyRecording);
    assert_eq!(rec.stop_recording().unwrap(), Some(path));
}

#[test]
fn decimal_rendering() {
    assert_eq!(u64_dec_string(0), "0".to_string());
    assert_eq!(u64_dec_string(7), "7".to_string());
    assert_eq!(u64_dec_string(1700000000), "1700000000".to_string());
    assert_eq!(u64_dec_string(18446744073709551615), "18446744073709551615".to_string());
    assert_eq!(recording_file_name(0), "recording_0.wav".to_string());
    assert_eq!(recording_file_name(-5), "recording_-5.wav".to_string());
    assert_eq!(recording_file_name(i64::MIN), "recording_-9223372036854775808.wav".to_string());
    assert_eq!(recording_file_name(i64::MAX), "recording_9223372036854775807.wav".to_string());
}

#[test]
fn error_messages() {
    assert_eq!(RecorderError::AlreadyRecording.message(), "Already recording");
    assert_eq!(RecorderError::NotRecording.message(), "Not recording");
    assert_eq!(RecorderError::DeviceError.message(), "No input device available");
    assert_eq!(RecorderError::FormatError.message(), "Unsupported sample format");
    assert_eq!(RecorderError::ConfigError.message(), "Failed to get input configuration");
    assert_eq!(RecorderError::StreamError.message(), "Failed to start input stream");
    assert_eq!(RecorderError::IoError.message(), "Audio file I/O error");
    assert_eq!(RecorderError::TranscriptionError.message(), "Failed to transcribe audio");
}

#[test]
fn start_response_shapes() {
    let ok = start_response(Ok("recording_9.wav".to_string()));
    assert!(ok.success);
    assert_eq!(ok.file_path, Some("recording_9.wav".to_string()));
    assert_eq!(ok.error, None);
    let err = start_response(Err(RecorderError::AlreadyRecording));
    assert!(!err.success);
    assert_eq!(err.file_path, None);
    assert_eq!(err.error, Some("Failed to start recording: Already recording".to_string()));
}

#[test]
fn stop_response_shapes() {
    let ok = stop_response(Ok(Some("recording_9.wav".to_string())));
    assert!(ok.success);
    assert_eq!(ok.file_path, Some("recording_9.wav".to_string()));
    let idle = stop_response(Ok(None));
    assert!(!idle.success);
    assert_eq!(idle.error, Some("Not recording".to_string()));
    let err = stop_response(Err(RecorderError::StreamError));
    assert!(!err.success);
    assert_eq!(err.error, Some("Failed to stop recording: Failed to start input stream".to_string()));
}

#[test]
fn transcription_shapes() {
    let full = shape_transcription(TranscriptionReply {
        success: Some(true),
        text: Some("hello".to_string()),
        error: None,
        segments: Some("[]".to_string()),
    });
    assert!(full.success);
    assert_eq!(full.text, "hello".to_string());
    assert_eq!(full.segments, Some("[]".to_string()));
    let empty = shape_transcription(TranscriptionReply {
        success: None,
        text: None,
        error: Some("bad".to_string()),
        segments: None,
    });
    assert!(!empty.success);
    assert_eq!(empty.text, "".to_string());
    assert_eq!(empty.error, Some("bad".to_string()));
    let failed = transcription_failure_response(RecorderError::TranscriptionError);
    assert!(!failed.success);
    assert_eq!(failed.error, Some("Failed to transcribe audio".to_string()));
}

#[test]
fn http_failure_carries_the_status() {
    let not_found = transcription_http_failure_response(404);
    assert!(!not_found.success);
    assert_eq!(not_found.text, "".to_string());
    assert_eq!(not_found.error, Some("Failed to transcribe audio: HTTP 404".to_string()));
    assert_eq!(not_found.segments, None);
    let server_error = transcription_http_failure_response(500);
    assert_eq!(server_error.error, Some("Failed to transcribe audio: HTTP 500".to_string()));
}

#[test]
fn transcribe_endpoint_and_status() {
    assert_eq!(transcribe_url("http://127.0.0.1:8000"), "http://127.0.0.1:8000/transcribe".to_string());
    assert!(classify_transcribe_status(200).is_ok());
    assert!(classify_transcribe_status(299).is_ok());
    assert_eq!(classify_transcribe_status(199).unwrap_err(), RecorderError::TranscriptionError);
    assert_eq!(classify_transcribe_status(300).unwrap_err(), RecorderError::TranscriptionError);
    assert_eq!(classify_transcribe_status(404).unwrap_err(), RecorderError::TranscriptionError);
    assert_eq!(classify_transcribe_status(500).unwrap_err(), RecorderError::TranscriptionError);
}
