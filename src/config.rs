use vstd::prelude::*;

verus! {

/// How the engine is called and where it leaves the transcript.
#[derive(Clone, Copy, Debug, PartialEq, Eq, Structural)]
pub enum InvocationMode {
    /// `<model flag> <model> <file flag> <audio>`; the transcript is the
    /// engine's stdout.
    StdoutFlags,
    /// `<audio> <output>`; the engine writes the transcript to the output file.
    FilePositional,
}

/// The platform the engine runs on.
#[derive(Clone, Copy, Debug, PartialEq, Eq, Structural)]
pub enum Platform {
    Windows,
    Unix,
}

/// Everything a transcription depends on besides the request itself.
///
/// The directory lists are in order of preference; the first one that holds
/// what is looked for wins.
#[derive(Clone, Debug)]
pub struct EngineConfig {
    /// Directories where uploaded audio files are kept.
    pub upload_dirs: Vec<String>,
    /// The upload directory of the older layout, if that layout is checked.
    pub legacy_upload_dir: Option<String>,
    /// Directories that may hold the engine and its model.
    pub engine_dirs: Vec<String>,
    /// The engine executable, relative to an engine directory.
    pub executable: String,
    /// The model file, relative to an engine directory.
    pub model: String,
    pub mode: InvocationMode,
    /// The flag that precedes the model path, such as `--model` or `-m`.
    pub model_flag: String,
    /// The flag that precedes the audio path, such as `--file` or `-f`.
    pub file_flag: String,
    /// Appended to the audio path to name the transcript file.
    pub output_suffix: String,
    /// The working directory of the engine process.
    pub working_dir: String,
    /// How long the engine may run, in milliseconds; no limit when absent.
    pub timeout_ms: Option<u64>,
}

/// The engine executable for `platform`, relative to an engine directory:
/// a batch wrapper on Windows, the native binary elsewhere.
pub open spec fn executable_for_spec(platform: Platform) -> Seq<char> {
    match platform {
        Platform::Windows => seq!['w', 'h', 'i', 's', 'p', 'e', 'r', '/', 'w', 'h', 'i', 's', 'p', 'e', 'r', '.', 'b', 'a', 't'],
        Platform::Unix => seq!['w', 'h', 'i', 's', 'p', 'e', 'r', '/', 'w', 'h', 'i', 's', 'p', 'e', 'r'],
    }
}

/// The engine executable for `platform`.
pub fn executable_for(platform: Platform) -> (r: String)
    ensures
        r@ == executable_for_spec(platform),
{
    match platform {
        Platform::Windows => {
            proof {
                reveal_strlit("whisper/whisper.bat");
            }
            String::from_str("whisper/whisper.bat")
        },
        Platform::Unix => {
            proof {
                reveal_strlit("whisper/whisper");
            }
            String::from_str("whisper/whisper")
        },
    }
}

} // verus!
