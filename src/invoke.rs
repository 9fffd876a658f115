use vstd::prelude::*;

use crate::config::{EngineConfig, InvocationMode};
use crate::paths::views_of;
use crate::resolve::{PathsModel, ResolvedPaths};

verus! {

/// A fully described engine run.
#[derive(Clone, Debug, PartialEq, Eq)]
pub struct Invocation {
    pub program: String,
    pub args: Vec<String>,
    pub working_dir: String,
    /// Where the transcript is read from after the run, in file-based mode.
    pub output_path: Option<String>,
    pub timeout_ms: Option<u64>,
}

/// The transcript file the engine writes for `audio`.
pub open spec fn output_path_spec(cfg: EngineConfig, audio: Seq<char>) -> Seq<char> {
    audio + cfg.output_suffix@
}

/// The path of the transcript file for `audio`.
pub fn output_path(cfg: &EngineConfig, audio: &String) -> (r: String)
    ensures
        r@ == output_path_spec(*cfg, audio@),
{
    let mut r = audio.clone();
    r.append(cfg.output_suffix.as_str());
    r
}

/// The engine's arguments in each mode.
pub open spec fn args_spec(cfg: EngineConfig, paths: PathsModel) -> Seq<Seq<char>> {
    match cfg.mode {
        InvocationMode::StdoutFlags => seq![
            cfg.model_flag@,
            paths.model,
            cfg.file_flag@,
            paths.audio,
        ],
        InvocationMode::FilePositional => seq![paths.audio, output_path_spec(cfg, paths.audio)],
    }
}

/// Describes the engine run for resolved paths: the executable with the
/// mode's arguments, in the configured working directory, under the
/// configured timeout.
pub fn plan_invocation(cfg: &EngineConfig, paths: &ResolvedPaths) -> (r: Invocation)
    ensures
        r.program@ == paths.executable@,
        views_of(r.args@) == args_spec(*cfg, paths@),
        r.working_dir@ == cfg.working_dir@,
        r.timeout_ms == cfg.timeout_ms,
        cfg.mode == InvocationMode::StdoutFlags ==> r.output_path.is_none(),
        cfg.mode == InvocationMode::FilePositional ==> r.output_path.is_some()
            && r.output_path->0@ == output_path_spec(*cfg, paths.audio@),
{
    let mut args: Vec<String> = Vec::new();
    let out = match cfg.mode {
        InvocationMode::StdoutFlags => {
            args.push(cfg.model_flag.clone());
            args.push(paths.model.clone());
            args.push(cfg.file_flag.clone());
            args.push(paths.audio.clone());
            None
        },
        InvocationMode::FilePositional => {
            let o = output_path(cfg, &paths.audio);
            args.push(paths.audio.clone());
            args.push(o.clone());
            Some(o)
        },
    };
    assert(views_of(args@) =~= args_spec(*cfg, paths@));
    Invocation {
        program: paths.executable.clone(),
        args,
        working_dir: cfg.working_dir.clone(),
        output_path: out,
        timeout_ms: cfg.timeout_ms,
    }
}

/// What to do next while the engine runs.
#[derive(Clone, Copy, Debug, PartialEq, Eq, Structural)]
pub enum WaitAction {
    /// The engine has exited: collect its status and output.
    Collect,
    /// The time allowed has run out: stop the engine.
    Kill,
    /// Wait a little longer and look again.
    Poll,
}

/// An engine that has exited is collected; one still running is stopped
/// once the elapsed time reaches the timeout, and waited for otherwise.
pub open spec fn wait_step_spec(exited: bool, elapsed_ms: u64, timeout_ms: Option<u64>) -> WaitAction {
    if exited {
        WaitAction::Collect
    } else {
        match timeout_ms {
            Some(t) => if elapsed_ms >= t {
                WaitAction::Kill
            } else {
                WaitAction::Poll
            },
            None => WaitAction::Poll,
        }
    }
}

/// Decides the next step of waiting for the engine.
pub fn wait_step(exited: bool, elapsed_ms: u64, timeout_ms: Option<u64>) -> (r: WaitAction)
    ensures
        r == wait_step_spec(exited, elapsed_ms, timeout_ms),
{
    if exited {
        return WaitAction::Collect;
    }
    match timeout_ms {
        Some(t) => if elapsed_ms >= t {
            WaitAction::Kill
        } else {
            WaitAction::Poll
        },
        None => WaitAction::Poll,
    }
}

} // verus!
