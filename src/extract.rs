use vstd::prelude::*;

use crate::config::InvocationMode;
use crate::decimal::{decimal, decimal_spec};
use crate::error::{Failure, TranscribeError};

verus! {

/// What a finished engine run left behind.
#[derive(Clone, Debug, PartialEq, Eq)]
pub struct ProcessResult {
    /// Whether the exit status reports success.
    pub success: bool,
    /// The exit code, when the process exited with one.
    pub exit_code: Option<i32>,
    pub stdout: Vec<u8>,
    pub stderr: Vec<u8>,
}

/// How an attempt to run the engine ended.
#[derive(Clone, Debug, PartialEq, Eq)]
pub enum LaunchOutcome {
    Finished(ProcessResult),
    LaunchFailed(String),
    TimedOut,
}

/// What to do once the engine has run.
#[derive(Clone, Debug, PartialEq, Eq)]
pub enum Extraction {
    /// The transcript is already known.
    Transcript(String),
    /// The transcript is in this file.
    ReadOutput(String),
}

pub enum ExtractionModel {
    Transcript(Seq<char>),
    ReadOutput(Seq<char>),
}

impl View for Extraction {
    type V = ExtractionModel;

    open spec fn view(&self) -> ExtractionModel {
        match self {
            Extraction::Transcript(t) => ExtractionModel::Transcript(t@),
            Extraction::ReadOutput(p) => ExtractionModel::ReadOutput(p@),
        }
    }
}

pub open spec fn extraction_result_view(r: Result<Extraction, TranscribeError>) -> Result<
    ExtractionModel,
    Failure,
> {
    match r {
        Ok(x) => Ok(x@),
        Err(e) => Err(e@),
    }
}

/// What became of the transcript file when it was looked for.
#[derive(Clone, Debug, PartialEq, Eq)]
pub enum OutputFile {
    Missing,
    Unreadable,
    Contents(String),
}

/// The text of `b`, decoded as UTF-8 with each invalid sequence replaced.
pub uninterp spec fn lossy_utf8(b: Seq<u8>) -> Seq<char>;

/// Relies on `String::from_utf8_lossy`: its result depends on the bytes alone.
#[verifier::external_body]
fn decode_lossy(b: &Vec<u8>) -> (r: String)
    ensures
        r@ == lossy_utf8(b@),
{
    String::from_utf8_lossy(b.as_slice()).into_owned()
}

/// The message of a failed run when the engine printed nothing: the exit
/// code when there is one (a process stopped by a signal has none).
pub open spec fn generic_failure_spec(exit_code: Option<i32>) -> Seq<char> {
    match exit_code {
        Some(c) => "the engine exited with status "@ + decimal_spec(c as int),
        None => "the engine exited with a failure status"@,
    }
}

/// The message of a failed run: stderr when it is not empty, else stdout
/// when it is not empty, else a generic message.
pub open spec fn failure_message_spec(
    stdout: Seq<char>,
    stderr: Seq<char>,
    exit_code: Option<i32>,
) -> Seq<char> {
    if stderr.len() > 0 {
        stderr
    } else if stdout.len() > 0 {
        stdout
    } else {
        generic_failure_spec(exit_code)
    }
}

/// The message reported for a failed run with the given output.
pub fn failure_message(stdout: &String, stderr: &String, exit_code: Option<i32>) -> (r: String)
    ensures
        r@ == failure_message_spec(stdout@, stderr@, exit_code),
{
    if !stderr.as_str().is_empty() {
        stderr.clone()
    } else if !stdout.as_str().is_empty() {
        stdout.clone()
    } else {
        match exit_code {
            Some(c) => {
                let mut m = String::from_str("the engine exited with status ");
                m.append(decimal(c).as_str());
                m
            },
            None => String::from_str("the engine exited with a failure status"),
        }
    }
}

/// The next step after a run that ended with `success` and the given
/// decoded output: a failure carries the exit code and the failure message;
/// a success gives stdout as the transcript in stdout mode, and the
/// transcript file to read in file mode.
pub open spec fn decoded_extraction_spec(
    mode: InvocationMode,
    success: bool,
    exit_code: Option<i32>,
    stdout: Seq<char>,
    stderr: Seq<char>,
    output_path: Seq<char>,
) -> Result<ExtractionModel, Failure> {
    if !success {
        Err(
            Failure::EngineExecutionFailed {
                exit_code,
                message: failure_message_spec(stdout, stderr, exit_code),
            },
        )
    } else {
        match mode {
            InvocationMode::StdoutFlags => Ok(ExtractionModel::Transcript(stdout)),
            InvocationMode::FilePositional => Ok(ExtractionModel::ReadOutput(output_path)),
        }
    }
}

/// Decides the next step from a run's exit status and decoded output.
pub fn extract_decoded(
    mode: InvocationMode,
    success: bool,
    exit_code: Option<i32>,
    stdout: String,
    stderr: String,
    output_path: &String,
) -> (r: Result<Extraction, TranscribeError>)
    ensures
        extraction_result_view(r) == decoded_extraction_spec(
            mode,
            success,
            exit_code,
            stdout@,
            stderr@,
            output_path@,
        ),
{
    if !success {
        let message = failure_message(&stdout, &stderr, exit_code);
        return Err(TranscribeError::EngineExecutionFailed { exit_code, message });
    }
    match mode {
        InvocationMode::StdoutFlags => Ok(Extraction::Transcript(stdout)),
        InvocationMode::FilePositional => Ok(Extraction::ReadOutput(output_path.clone())),
    }
}

/// The next step after an attempt to run the engine.
pub open spec fn extraction_spec(
    mode: InvocationMode,
    outcome: LaunchOutcome,
    output_path: Seq<char>,
) -> Result<ExtractionModel, Failure> {
    match outcome {
        LaunchOutcome::LaunchFailed(e) => Err(Failure::ProcessLaunchFailed { os_error: e@ }),
        LaunchOutcome::TimedOut => Err(Failure::ProcessTimedOut),
        LaunchOutcome::Finished(p) => decoded_extraction_spec(
            mode,
            p.success,
            p.exit_code,
            lossy_utf8(p.stdout@),
            lossy_utf8(p.stderr@),
            output_path,
        ),
    }
}

/// Decides the next step after an attempt to run the engine: a launch
/// failure or a timeout ends the request, a finished run is judged by its
/// exit status and output.
pub fn after_process(mode: InvocationMode, outcome: &LaunchOutcome, output_path: &String) -> (r:
    Result<Extraction, TranscribeError>)
    ensures
        extraction_result_view(r) == extraction_spec(mode, *outcome, output_path@),
{
    match outcome {
        LaunchOutcome::LaunchFailed(e) => Err(
            TranscribeError::ProcessLaunchFailed { os_error: e.clone() },
        ),
        LaunchOutcome::TimedOut => Err(TranscribeError::ProcessTimedOut),
        LaunchOutcome::Finished(p) => {
            let stdout = decode_lossy(&p.stdout);
            let stderr = decode_lossy(&p.stderr);
            extract_decoded(mode, p.success, p.exit_code, stdout, stderr, output_path)
        },
    }
}

/// The transcript taken from the engine's output file: its full text, or a
/// failure when the file is missing or cannot be read.
pub open spec fn output_file_spec(path: Seq<char>, file: OutputFile) -> Result<Seq<char>, Failure> {
    match file {
        OutputFile::Missing => Err(Failure::OutputFileMissing { path }),
        OutputFile::Unreadable => Err(Failure::EmptyOrMissingTranscript),
        OutputFile::Contents(t) => Ok(t@),
    }
}

/// Takes the transcript from what was found at the output file's path.
pub fn from_output_file(path: &String, file: OutputFile) -> (r: Result<String, TranscribeError>)
    ensures
        crate::error::text_result_view(r) == output_file_spec(path@, file),
{
    match file {
        OutputFile::Missing => Err(TranscribeError::OutputFileMissing { path: path.clone() }),
        OutputFile::Unreadable => Err(TranscribeError::EmptyOrMissingTranscript),
        OutputFile::Contents(t) => Ok(t),
    }
}

/// A run that exits with a failure status is reported with its stderr text
/// when that is not empty, else with its stdout text when that is not empty,
/// else with the generic message, which gives the exit code; the exit code
/// is kept alongside.
pub proof fn failed_run_message_priority(mode: InvocationMode, p: ProcessResult, output_path: Seq<char>)
    requires
        !p.success,
    ensures
        lossy_utf8(p.stderr@).len() > 0 ==> extraction_spec(
            mode,
            LaunchOutcome::Finished(p),
            output_path,
        ) == Err::<ExtractionModel, Failure>(
            Failure::EngineExecutionFailed { exit_code: p.exit_code, message: lossy_utf8(p.stderr@) },
        ),
        lossy_utf8(p.stderr@).len() == 0 && lossy_utf8(p.stdout@).len() > 0 ==> extraction_spec(
            mode,
            LaunchOutcome::Finished(p),
            output_path,
        ) == Err::<ExtractionModel, Failure>(
            Failure::EngineExecutionFailed { exit_code: p.exit_code, message: lossy_utf8(p.stdout@) },
        ),
        lossy_utf8(p.stderr@).len() == 0 && lossy_utf8(p.stdout@).len() == 0 ==> extraction_spec(
            mode,
            LaunchOutcome::Finished(p),
            output_path,
        ) == Err::<ExtractionModel, Failure>(
            Failure::EngineExecutionFailed {
                exit_code: p.exit_code,
                message: generic_failure_spec(p.exit_code),
            },
        ),
{
}

/// In file mode a successful run sends the request to the output file, and
/// a missing output file is reported as such, never as an empty transcript.
pub proof fn missing_output_is_reported(p: ProcessResult, output_path: Seq<char>)
    requires
        p.success,
    ensures
        extraction_spec(InvocationMode::FilePositional, LaunchOutcome::Finished(p), output_path)
            == Ok::<ExtractionModel, Failure>(ExtractionModel::ReadOutput(output_path)),
        output_file_spec(output_path, OutputFile::Missing) == Err::<Seq<char>, Failure>(
            Failure::OutputFileMissing { path: output_path },
        ),
{
}

} // verus!
