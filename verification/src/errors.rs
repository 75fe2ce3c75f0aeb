//! The error kinds a recording or transcription attempt can surface.

use vstd::prelude::*;

verus! {

/// Everything that can go wrong across the recorder's lifecycle.
///
/// `AlreadyRecording` and `NotRecording` are recoverable misuses of the
/// start/stop protocol; the device and stream kinds are fatal to one capture
/// attempt; `IoError` covers sink creation, write and finalize failures;
/// `TranscriptionError` covers a failed upload of a finished file.
#[derive(Clone, Copy, Debug, PartialEq, Eq, Structural)]
pub enum RecorderError {
    AlreadyRecording,
    NotRecording,
    DeviceError,
    ConfigError,
    FormatError,
    StreamError,
    IoError,
    TranscriptionError,
}

/// The fixed message text for each error kind.
pub open spec fn spec_message(e: RecorderError) -> Seq<char> {
    match e {
        RecorderError::AlreadyRecording => "Already recording"@,
        RecorderError::NotRecording => "Not recording"@,
        RecorderError::DeviceError => "No input device available"@,
        RecorderError::ConfigError => "Failed to get input configuration"@,
        RecorderError::FormatError => "Unsupported sample format"@,
        RecorderError::StreamError => "Failed to start input stream"@,
        RecorderError::IoError => "Audio file I/O error"@,
        RecorderError::TranscriptionError => "Failed to transcribe audio"@,
    }
}

impl RecorderError {
    /// Human-readable description of the error.
    pub fn message(&self) -> (r: &'static str)
        ensures
            r@ == spec_message(*self),
    {
        match self {
            RecorderError::AlreadyRecording => "Already recording",
            RecorderError::NotRecording => "Not recording",
            RecorderError::DeviceError => "No input device available",
            RecorderError::ConfigError => "Failed to get input configuration",
            RecorderError::FormatError => "Unsupported sample format",
            RecorderError::StreamError => "Failed to start input stream",
            RecorderError::IoError => "Audio file I/O error",
            RecorderError::TranscriptionError => "Failed to transcribe audio",
        }
    }
}

} // verus!
