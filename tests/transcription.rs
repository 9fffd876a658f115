use callsupport::config::{executable_for, EngineConfig, InvocationMode, Platform};
use callsupport::decimal::decimal;
use callsupport::error::{Artifact, TranscribeError};
use callsupport::extract::{
    after_process, extract_decoded, failure_message, from_output_file, Extraction, LaunchOutcome,
    OutputFile, ProcessResult,
};
use callsupport::invoke::{output_path, plan_invocation, wait_step, WaitAction};
use callsupport::paths::{join, FsView};
use callsupport::resolve::{probe_paths, resolve_paths, ResolvedPaths, TranscriptionRequest};

const UPLOADS: &str = "/home/u/.local/share/com.callsupport/audio_uploads";
const LEGACY: &str = "/home/u/.local/share/audio_uploads";
const ENGINE_DIR: &str = "/opt/callsupport";
const EXE: &str = "whisper/whisper";
const MODEL: &str = "whisper/models/ggml-base.en.bin";

fn s(x: &str) -> String {
    x.to_string()
}

fn config(mode: InvocationMode) -> EngineConfig {
    EngineConfig {
        upload_dirs: vec![s(UPLOADS)],
        legacy_upload_dir: Some(s(LEGACY)),
        engine_dirs: vec![s(ENGINE_DIR)],
        executable: s(EXE),
        model: s(MODEL),
        mode,
        model_flag: s("--model"),
        file_flag: s("--file"),
        output_suffix: s(".txt"),
        working_dir: s("/home/u/.local/share/com.callsupport"),
        timeout_ms: None,
    }
}

fn by_name(name: &str) -> TranscriptionRequest {
    TranscriptionRequest { filename: s(name), explicit_path: None }
}

fn fs_of(paths: &[&str]) -> FsView {
    let mut fs = FsView::empty();
    for p in paths {
        fs.add(s(p));
    }
    fs
}

fn engine_files() -> Vec<String> {
    vec![format!("{}/{}", ENGINE_DIR, EXE), format!("{}/{}", ENGINE_DIR, MODEL)]
}

fn full_fs(audio: &str) -> FsView {
    let mut fs = fs_of(&[audio]);
    for p in engine_files() {
        fs.add(p);
    }
    fs
}

fn finished(success: bool, code: Option<i32>, stdout: &[u8], stderr: &[u8]) -> LaunchOutcome {
    LaunchOutcome::Finished(ProcessResult {
        success,
        exit_code: code,
        stdout: stdout.to_vec(),
        stderr: stderr.to_vec(),
    })
}

fn meeting_path() -> String {
    format!("{}/meeting.wav", UPLOADS)
}

#[test]
fn join_inserts_one_separator() {
    assert_eq!(join(&s("/a/b"), &s("c.wav")), s("/a/b/c.wav"));
}

#[test]
fn fs_view_answers_membership() {
    let fs = fs_of(&["/x", "/y"]);
    assert!(fs.contains(&s("/y")));
    assert!(!fs.contains(&s("/z")));
    assert!(!FsView::empty().contains(&s("/x")));
}

#[test]
fn executable_depends_on_platform() {
    assert_eq!(executable_for(Platform::Windows), s("whisper/whisper.bat"));
    assert_eq!(executable_for(Platform::Unix), s("whisper/whisper"));
}

#[test]
fn scenario_stdout_mode_returns_stdout() {
    let cfg = config(InvocationMode::StdoutFlags);
    let req = by_name("meeting.wav");
    let fs = full_fs(&meeting_path());
    let paths = resolve_paths(&cfg, &req, &fs).unwrap();
    assert_eq!(paths.audio, meeting_path());
    let inv = plan_invocation(&cfg, &paths);
    assert_eq!(inv.program, format!("{}/{}", ENGINE_DIR, EXE));
    assert_eq!(
        inv.args,
        vec![s("--model"), format!("{}/{}", ENGINE_DIR, MODEL), s("--file"), meeting_path()]
    );
    assert_eq!(inv.output_path, None);
    let out = finished(true, Some(0), b"hello world", b"");
    let next = after_process(cfg.mode, &out, &output_path(&cfg, &paths.audio)).unwrap();
    assert_eq!(next, Extraction::Transcript(s("hello world")));
}

#[test]
fn scenario_file_mode_reads_output_file() {
    let cfg = config(InvocationMode::FilePositional);
    let req = by_name("meeting.wav");
    let fs = full_fs(&meeting_path());
    let paths = resolve_paths(&cfg, &req, &fs).unwrap();
    let inv = plan_invocation(&cfg, &paths);
    let expected_out = format!("{}/meeting.wav.txt", UPLOADS);
    assert_eq!(inv.args, vec![meeting_path(), expected_out.clone()]);
    assert_eq!(inv.output_path, Some(expected_out.clone()));
    let out = finished(true, Some(0), b"", b"");
    let next = after_process(cfg.mode, &out, &expected_out).unwrap();
    assert_eq!(next, Extraction::ReadOutput(expected_out.clone()));
    let text = from_output_file(&expected_out, OutputFile::Contents(s("hi there")));
    assert_eq!(text, Ok(s("hi there")));
}

#[test]
fn scenario_absent_audio_is_not_found() {
    let cfg = config(InvocationMode::StdoutFlags);
    let mut fs = FsView::empty();
    for p in engine_files() {
        fs.add(p);
    }
    let r = resolve_paths(&cfg, &by_name("meeting.wav"), &fs);
    assert_eq!(
        r,
        Err(TranscribeError::PathNotFound { artifact: Artifact::Audio, path_tried: meeting_path() })
    );
}

#[test]
fn scenario_legacy_upload_is_refused() {
    let cfg = config(InvocationMode::StdoutFlags);
    let legacy = format!("{}/meeting.wav", LEGACY);
    let fs = full_fs(&legacy);
    let r = resolve_paths(&cfg, &by_name("meeting.wav"), &fs);
    assert_eq!(r, Err(TranscribeError::LegacyPathDetected { legacy_path: legacy.clone() }));
    assert!(legacy.ends_with("/audio_uploads/meeting.wav"));
}

#[test]
fn primary_upload_wins_over_legacy() {
    let cfg = config(InvocationMode::StdoutFlags);
    let mut fs = full_fs(&meeting_path());
    fs.add(format!("{}/meeting.wav", LEGACY));
    let paths = resolve_paths(&cfg, &by_name("meeting.wav"), &fs).unwrap();
    assert_eq!(paths.audio, meeting_path());
}

#[test]
fn explicit_path_is_returned_unchanged() {
    let cfg = config(InvocationMode::StdoutFlags);
    let req = TranscriptionRequest { filename: s("ignored.wav"), explicit_path: Some(s("/tmp/x.wav")) };
    let fs = full_fs("/tmp/x.wav");
    let paths = resolve_paths(&cfg, &req, &fs).unwrap();
    assert_eq!(
        paths,
        ResolvedPaths {
            audio: s("/tmp/x.wav"),
            executable: format!("{}/{}", ENGINE_DIR, EXE),
            model: format!("{}/{}", ENGINE_DIR, MODEL),
        }
    );
}

#[test]
fn explicit_path_missing_is_not_found() {
    let cfg = config(InvocationMode::StdoutFlags);
    let req = TranscriptionRequest { filename: s("m.wav"), explicit_path: Some(s("/tmp/x.wav")) };
    let r = resolve_paths(&cfg, &req, &full_fs("/tmp/other.wav"));
    assert_eq!(
        r,
        Err(TranscribeError::PathNotFound { artifact: Artifact::Audio, path_tried: s("/tmp/x.wav") })
    );
}

#[test]
fn resolving_twice_gives_identical_paths() {
    let cfg = config(InvocationMode::StdoutFlags);
    let req = by_name("meeting.wav");
    let fs = full_fs(&meeting_path());
    assert_eq!(resolve_paths(&cfg, &req, &fs), resolve_paths(&cfg, &req, &fs));
    let missing = FsView::empty();
    assert_eq!(resolve_paths(&cfg, &req, &missing), resolve_paths(&cfg, &req, &missing));
}

#[test]
fn upload_dirs_are_tried_in_order() {
    let mut cfg = config(InvocationMode::StdoutFlags);
    cfg.upload_dirs = vec![s("/first"), s("/second"), s("/third")];
    let fs = full_fs("/third/a.wav");
    let mut both = full_fs("/third/a.wav");
    both.add(s("/second/a.wav"));
    assert_eq!(resolve_paths(&cfg, &by_name("a.wav"), &fs).unwrap().audio, s("/third/a.wav"));
    assert_eq!(resolve_paths(&cfg, &by_name("a.wav"), &both).unwrap().audio, s("/second/a.wav"));
    let none = resolve_paths(&cfg, &by_name("a.wav"), &full_fs("/x"));
    assert_eq!(
        none,
        Err(TranscribeError::PathNotFound { artifact: Artifact::Audio, path_tried: s("/third/a.wav") })
    );
}

#[test]
fn engine_dir_needs_both_files() {
    let mut cfg = config(InvocationMode::StdoutFlags);
    cfg.engine_dirs = vec![s("/res"), s("/proj")];
    let mut fs = fs_of(&["/up/a.wav", "/res/whisper/whisper", "/proj/whisper/whisper"]);
    cfg.upload_dirs = vec![s("/up")];
    fs.add(format!("/proj/{}", MODEL));
    let paths = resolve_paths(&cfg, &by_name("a.wav"), &fs).unwrap();
    assert_eq!(paths.executable, s("/proj/whisper/whisper"));
    assert_eq!(paths.model, format!("/proj/{}", MODEL));
}

#[test]
fn missing_executable_is_named() {
    let mut cfg = config(InvocationMode::StdoutFlags);
    cfg.engine_dirs = vec![s("/res"), s("/proj")];
    let fs = fs_of(&[&meeting_path()]);
    let r = resolve_paths(&cfg, &by_name("meeting.wav"), &fs);
    assert_eq!(
        r,
        Err(TranscribeError::PathNotFound {
            artifact: Artifact::Executable,
            path_tried: s("/proj/whisper/whisper"),
        })
    );
}

#[test]
fn missing_model_is_named() {
    let cfg = config(InvocationMode::StdoutFlags);
    let fs = fs_of(&[&meeting_path(), &format!("{}/{}", ENGINE_DIR, EXE)]);
    let r = resolve_paths(&cfg, &by_name("meeting.wav"), &fs);
    assert_eq!(
        r,
        Err(TranscribeError::PathNotFound {
            artifact: Artifact::Model,
            path_tried: format!("{}/{}", ENGINE_DIR, MODEL),
        })
    );
}

#[test]
fn no_engine_dirs_names_the_executable() {
    let mut cfg = config(InvocationMode::StdoutFlags);
    cfg.engine_dirs = vec![];
    let r = resolve_paths(&cfg, &by_name("meeting.wav"), &full_fs(&meeting_path()));
    assert_eq!(
        r,
        Err(TranscribeError::PathNotFound { artifact: Artifact::Executable, path_tried: s(EXE) })
    );
}

#[test]
fn probes_cover_candidates_in_order() {
    let cfg = config(InvocationMode::StdoutFlags);
    let probes = probe_paths(&cfg, &by_name("meeting.wav"));
    assert_eq!(
        probes,
        vec![
            meeting_path(),
            format!("{}/meeting.wav", LEGACY),
            format!("{}/{}", ENGINE_DIR, EXE),
            format!("{}/{}", ENGINE_DIR, MODEL),
        ]
    );
    let req = TranscriptionRequest { filename: s("m.wav"), explicit_path: Some(s("/tmp/x.wav")) };
    assert_eq!(probe_paths(&cfg, &req)[0], s("/tmp/x.wav"));
    assert_eq!(probe_paths(&cfg, &req).len(), 3);
}

#[test]
fn failure_prefers_stderr() {
    let out = finished(false, Some(2), b"some stdout", b"bad model");
    let r = after_process(InvocationMode::StdoutFlags, &out, &s("/o.txt"));
    assert_eq!(
        r,
        Err(TranscribeError::EngineExecutionFailed { exit_code: Some(2), message: s("bad model") })
    );
}

#[test]
fn failure_falls_back_to_stdout() {
    let out = finished(false, Some(1), b"usage: whisper", b"");
    let r = after_process(InvocationMode::FilePositional, &out, &s("/o.txt"));
    assert_eq!(
        r,
        Err(TranscribeError::EngineExecutionFailed { exit_code: Some(1), message: s("usage: whisper") })
    );
}

#[test]
fn failure_without_output_gives_exit_code() {
    let out = finished(false, Some(-1073741819), b"", b"");
    let r = after_process(InvocationMode::StdoutFlags, &out, &s("/o.txt"));
    assert_eq!(
        r,
        Err(TranscribeError::EngineExecutionFailed {
            exit_code: Some(-1073741819),
            message: s("the engine exited with status -1073741819"),
        })
    );
}

#[test]
fn decimal_text_of_codes() {
    assert_eq!(decimal(0), s("0"));
    assert_eq!(decimal(7), s("7"));
    assert_eq!(decimal(255), s("255"));
    assert_eq!(decimal(-40), s("-40"));
    assert_eq!(decimal(i32::MIN), s("-2147483648"));
    assert_eq!(decimal(i32::MAX), s("2147483647"));
}

#[test]
fn failure_without_output_is_generic() {
    let out = finished(false, None, b"", b"");
    let r = after_process(InvocationMode::StdoutFlags, &out, &s("/o.txt"));
    assert_eq!(
        r,
        Err(TranscribeError::EngineExecutionFailed {
            exit_code: None,
            message: s("the engine exited with a failure status"),
        })
    );
}

#[test]
fn failure_message_priority_on_text() {
    assert_eq!(failure_message(&s("o"), &s("e"), Some(3)), s("e"));
    assert_eq!(failure_message(&s("o"), &s(""), Some(3)), s("o"));
    assert_eq!(failure_message(&s(""), &s(""), Some(3)), s("the engine exited with status 3"));
    assert_eq!(failure_message(&s(""), &s(""), None), s("the engine exited with a failure status"));
}

#[test]
fn invalid_utf8_is_replaced() {
    let out = finished(true, Some(0), &[b'h', 0xff, b'i'], b"");
    let r = after_process(InvocationMode::StdoutFlags, &out, &s("/o.txt"));
    assert_eq!(r, Ok(Extraction::Transcript(s("h\u{fffd}i"))));
}

#[test]
fn decoded_success_in_file_mode_reads_file() {
    let r = extract_decoded(InvocationMode::FilePositional, true, Some(0), s("log"), s(""), &s("/a.wav.txt"));
    assert_eq!(r, Ok(Extraction::ReadOutput(s("/a.wav.txt"))));
}

#[test]
fn missing_output_file_is_reported() {
    let out = finished(true, Some(0), b"", b"");
    let next = after_process(InvocationMode::FilePositional, &out, &s("/a.wav.txt")).unwrap();
    assert_eq!(next, Extraction::ReadOutput(s("/a.wav.txt")));
    assert_eq!(
        from_output_file(&s("/a.wav.txt"), OutputFile::Missing),
        Err(TranscribeError::OutputFileMissing { path: s("/a.wav.txt") })
    );
}

#[test]
fn unreadable_output_file_is_reported() {
    assert_eq!(
        from_output_file(&s("/a.wav.txt"), OutputFile::Unreadable),
        Err(TranscribeError::EmptyOrMissingTranscript)
    );
}

#[test]
fn launch_failure_and_timeout_end_the_request() {
    let r = after_process(InvocationMode::StdoutFlags, &LaunchOutcome::LaunchFailed(s("denied")), &s("/o"));
    assert_eq!(r, Err(TranscribeError::ProcessLaunchFailed { os_error: s("denied") }));
    let t = after_process(InvocationMode::StdoutFlags, &LaunchOutcome::TimedOut, &s("/o"));
    assert_eq!(t, Err(TranscribeError::ProcessTimedOut));
}

#[test]
fn plan_carries_working_dir_and_timeout() {
    let mut cfg = config(InvocationMode::StdoutFlags);
    cfg.timeout_ms = Some(30000);
    let paths = ResolvedPaths { audio: s("/a.wav"), executable: s("/e"), model: s("/m") };
    let inv = plan_invocation(&cfg, &paths);
    assert_eq!(inv.working_dir, s("/home/u/.local/share/com.callsupport"));
    assert_eq!(inv.timeout_ms, Some(30000));
    assert_eq!(output_path(&cfg, &s("/a.wav")), s("/a.wav.txt"));
}

#[test]
fn model_missing_everywhere_is_named() {
    let mut cfg = config(InvocationMode::StdoutFlags);
    cfg.engine_dirs = vec![s("d"), s("ee")];
    let fs = fs_of(&[&meeting_path(), "d/whisper/whisper"]);
    let r = resolve_paths(&cfg, &by_name("meeting.wav"), &fs);
    assert_eq!(
        r,
        Err(TranscribeError::PathNotFound {
            artifact: Artifact::Model,
            path_tried: format!("ee/{}", MODEL),
        })
    );
}

#[test]
fn files_in_separate_dirs_name_model_beside_executable() {
    let mut cfg = config(InvocationMode::StdoutFlags);
    cfg.engine_dirs = vec![s("a"), s("b"), s("c")];
    let model_b = format!("b/{}", MODEL);
    let fs = fs_of(&[&meeting_path(), "b/whisper/whisper", &model_b]);
    let mut split = fs_of(&[&meeting_path(), "b/whisper/whisper"]);
    split.add(format!("c/{}", MODEL));
    let r = resolve_paths(&cfg, &by_name("meeting.wav"), &split);
    assert_eq!(
        r,
        Err(TranscribeError::PathNotFound { artifact: Artifact::Model, path_tried: model_b.clone() })
    );
    assert_eq!(resolve_paths(&cfg, &by_name("meeting.wav"), &fs).unwrap().model, model_b);
}

#[test]
fn flags_come_from_config() {
    let mut cfg = config(InvocationMode::StdoutFlags);
    cfg.model_flag = s("-m");
    cfg.file_flag = s("-f");
    let paths = ResolvedPaths { audio: s("/a.wav"), executable: s("/e"), model: s("/m") };
    let inv = plan_invocation(&cfg, &paths);
    assert_eq!(inv.args, vec![s("-m"), s("/m"), s("-f"), s("/a.wav")]);
}

#[test]
fn wait_step_decides_collect_kill_or_poll() {
    assert_eq!(wait_step(true, 99999, Some(10)), WaitAction::Collect);
    assert_eq!(wait_step(false, 10, Some(10)), WaitAction::Kill);
    assert_eq!(wait_step(false, 9, Some(10)), WaitAction::Poll);
    assert_eq!(wait_step(false, u64::MAX, None), WaitAction::Poll);
}
