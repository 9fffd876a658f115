use vstd::prelude::*;

verus! {

/// The three files a transcription needs.
#[derive(Clone, Copy, Debug, PartialEq, Eq, Structural)]
pub enum Artifact {
    Audio,
    Executable,
    Model,
}

/// Why a transcription request failed. Every failure ends the request.
#[derive(Clone, Debug, PartialEq, Eq)]
pub enum TranscribeError {
    /// A required file was absent from every place it was looked for.
    PathNotFound { artifact: Artifact, path_tried: String },
    /// The audio file exists only in the upload directory of an older layout
    /// and has to be uploaded again.
    LegacyPathDetected { legacy_path: String },
    /// The engine could not be started.
    ProcessLaunchFailed { os_error: String },
    /// The engine ran longer than the configured timeout and was stopped.
    ProcessTimedOut,
    /// The engine ran and reported failure.
    EngineExecutionFailed { exit_code: Option<i32>, message: String },
    /// The engine reported success but wrote no transcript file.
    OutputFileMissing { path: String },
    /// The transcript file exists but its text could not be read.
    EmptyOrMissingTranscript,
}

/// A failure as plain values.
pub enum Failure {
    PathNotFound { artifact: Artifact, path_tried: Seq<char> },
    LegacyPathDetected { legacy_path: Seq<char> },
    ProcessLaunchFailed { os_error: Seq<char> },
    ProcessTimedOut,
    EngineExecutionFailed { exit_code: Option<i32>, message: Seq<char> },
    OutputFileMissing { path: Seq<char> },
    EmptyOrMissingTranscript,
}

impl View for TranscribeError {
    type V = Failure;

    open spec fn view(&self) -> Failure {
        match self {
            TranscribeError::PathNotFound { artifact, path_tried } => Failure::PathNotFound {
                artifact: *artifact,
                path_tried: path_tried@,
            },
            TranscribeError::LegacyPathDetected { legacy_path } => Failure::LegacyPathDetected {
                legacy_path: legacy_path@,
            },
            TranscribeError::ProcessLaunchFailed { os_error } => Failure::ProcessLaunchFailed {
                os_error: os_error@,
            },
            TranscribeError::ProcessTimedOut => Failure::ProcessTimedOut,
            TranscribeError::EngineExecutionFailed { exit_code, message } =>
                Failure::EngineExecutionFailed { exit_code: *exit_code, message: message@ },
            TranscribeError::OutputFileMissing { path } => Failure::OutputFileMissing {
                path: path@,
            },
            TranscribeError::EmptyOrMissingTranscript => Failure::EmptyOrMissingTranscript,
        }
    }
}

/// The plain-value form of a result whose success value is a string.
pub open spec fn text_result_view(r: Result<String, TranscribeError>) -> Result<
    Seq<char>,
    Failure,
> {
    match r {
        Ok(s) => Ok(s@),
        Err(e) => Err(e@),
    }
}

} // verus!
