//! The transactional compositor protocol that applies a selected image as
//! the wallpaper of a monitor: preload, then set, then a fire-and-forget
//! reload — sequential and short-circuiting, each step's failure reported
//! distinctly.
//!
//! The engine decides; the caller executes. Each decision step hands back
//! either the next compositor command to run or the protocol's outcome, so
//! the external process invocations stay outside the engine.

use vstd::prelude::*;

verus! {

/// The typed outcome of one apply attempt.
#[derive(Clone, Copy, Debug, PartialEq, Eq, Structural)]
pub enum ApplyOutcome {
    /// Both checked steps reported success.
    Success,
    /// The preload step failed; the set step was never attempted.
    PreloadFailed,
    /// The set step failed; the preloaded image stays in the compositor's
    /// memory (an accepted leak), and no reload is requested.
    SetFailed,
    /// No monitor was selected; no command was issued at all.
    NoMonitorSelected,
}

impl ApplyOutcome {
    /// The transient overlay text shown for this outcome; empty on success,
    /// where no overlay appears.
    pub fn message(&self) -> (r: String)
        ensures
            *self == ApplyOutcome::Success ==> r@ == ""@,
            *self == ApplyOutcome::PreloadFailed ==> r@ == "Failed to preload wallpaper"@,
            *self == ApplyOutcome::SetFailed ==> r@ == "Failed to apply wallpaper"@,
            *self == ApplyOutcome::NoMonitorSelected ==> r@ == "No monitor selected"@,
    {
        proof {
            reveal_strlit("");
        }
        match self {
            ApplyOutcome::Success => String::new(),
            ApplyOutcome::PreloadFailed => String::from_str("Failed to preload wallpaper"),
            ApplyOutcome::SetFailed => String::from_str("Failed to apply wallpaper"),
            ApplyOutcome::NoMonitorSelected => String::from_str("No monitor selected"),
        }
    }
}

/// One compositor command, ready to be handed to the external control CLI.
pub enum CompositorCmd {
    /// Ask the compositor to load the image at the given path into memory.
    Preload(String),
    /// Ask the compositor to assign a preloaded image to a monitor; the
    /// payload is the `<monitor_name>,<absolute_path>` pairing.
    SetWallpaper(String),
    /// Ask the compositor to refresh its rendering.
    Reload,
}

/// The `<monitor_name>,<absolute_path>` pairing the set step sends.
pub open spec fn pair_of(monitor: Seq<char>, path: Seq<char>) -> Seq<char> {
    monitor + ","@ + path
}

/// Builds the monitor/path pairing of the set step.
pub fn wallpaper_pair(monitor: &String, path: &String) -> (r: String)
    ensures
        r@ == pair_of(monitor@, path@),
{
    let mut pair = monitor.clone();
    pair.append(",");
    pair.append(path.as_str());
    pair
}

/// Which checked protocol step a running apply waits on.
#[derive(Clone, Copy, Debug, PartialEq, Eq, Structural)]
pub enum ApplyStage {
    AwaitingPreload,
    AwaitingSet,
}

/// A running apply: the chosen monitor, the image path, and the step whose
/// result is awaited.
pub struct ApplySession {
    pub monitor: String,
    pub path: String,
    pub stage: ApplyStage,
}

/// How an apply begins: refused outright, or pending with a first command
/// to run.
pub enum ApplyStart {
    /// The protocol short-circuited before any command was issued.
    Refused(ApplyOutcome),
    /// The protocol is running; the session's `command` gives the next
    /// invocation.
    Pending(ApplySession),
}

/// What one step result leads to: a further command, or the finished
/// outcome together with whether the fire-and-forget reload is to be run.
pub enum ApplyProgress {
    Next(ApplySession),
    Done(ApplyOutcome, bool),
}

/// Starts the apply protocol. With no monitor selected it short-circuits to
/// `NoMonitorSelected` before the first step; otherwise the session awaits
/// the preload step's result.
pub fn begin_apply(monitor: &Option<String>, path: &String) -> (r: ApplyStart)
    ensures
        monitor is None ==> r == ApplyStart::Refused(ApplyOutcome::NoMonitorSelected),
        monitor matches Some(m) ==> (r matches ApplyStart::Pending(s) && s.monitor == m && s.path
            == path && s.stage == ApplyStage::AwaitingPreload),
{
    match monitor {
        None => ApplyStart::Refused(ApplyOutcome::NoMonitorSelected),
        Some(m) => ApplyStart::Pending(
            ApplySession {
                monitor: m.clone(),
                path: path.clone(),
                stage: ApplyStage::AwaitingPreload,
            },
        ),
    }
}

impl ApplySession {
    /// The command whose result this session awaits: `preload <path>` first,
    /// then `wallpaper <monitor>,<path>`.
    pub fn command(&self) -> (r: CompositorCmd)
        ensures
            self.stage == ApplyStage::AwaitingPreload ==> (r matches CompositorCmd::Preload(p)
                && p == self.path),
            self.stage == ApplyStage::AwaitingSet ==> (r matches CompositorCmd::SetWallpaper(pair)
                && pair@ == pair_of(self.monitor@, self.path@)),
    {
        match self.stage {
            ApplyStage::AwaitingPreload => CompositorCmd::Preload(self.path.clone()),
            ApplyStage::AwaitingSet => CompositorCmd::SetWallpaper(
                wallpaper_pair(&self.monitor, &self.path),
            ),
        }
    }
}

/// The protocol's reaction to one step result: a failed preload aborts with
/// `PreloadFailed`; a successful preload moves on to the set step; a failed
/// set aborts with `SetFailed`; a successful set finishes with `Success` and
/// requests the reload.
pub open spec fn step_spec(s: ApplySession, exit_success: bool) -> ApplyProgress {
    match s.stage {
        ApplyStage::AwaitingPreload => if exit_success {
            ApplyProgress::Next(
                ApplySession { monitor: s.monitor, path: s.path, stage: ApplyStage::AwaitingSet },
            )
        } else {
            ApplyProgress::Done(ApplyOutcome::PreloadFailed, false)
        },
        ApplyStage::AwaitingSet => if exit_success {
            ApplyProgress::Done(ApplyOutcome::Success, true)
        } else {
            ApplyProgress::Done(ApplyOutcome::SetFailed, false)
        },
    }
}

/// Feeds the awaited command's exit status into the protocol.
pub fn on_command_result(s: ApplySession, exit_success: bool) -> (r: ApplyProgress)
    ensures
        r == step_spec(s, exit_success),
{
    match s.stage {
        ApplyStage::AwaitingPreload => if exit_success {
            ApplyProgress::Next(
                ApplySession { monitor: s.monitor, path: s.path, stage: ApplyStage::AwaitingSet },
            )
        } else {
            ApplyProgress::Done(ApplyOutcome::PreloadFailed, false)
        },
        ApplyStage::AwaitingSet => if exit_success {
            ApplyProgress::Done(ApplyOutcome::Success, true)
        } else {
            ApplyProgress::Done(ApplyOutcome::SetFailed, false)
        },
    }
}

/// Step ordering of the protocol: the set step is reached only from a
/// successful preload, a failure at either checked step ends the protocol at
/// once with that step's distinct outcome, and the fire-and-forget reload is
/// requested exactly when the protocol succeeds overall.
pub proof fn lemma_apply_step_ordering(s: ApplySession, exit_success: bool)
    ensures
        step_spec(s, exit_success) matches ApplyProgress::Next(t) ==> (s.stage
            == ApplyStage::AwaitingPreload && exit_success && t.stage == ApplyStage::AwaitingSet),
        s.stage == ApplyStage::AwaitingPreload && !exit_success ==> step_spec(s, exit_success)
            == ApplyProgress::Done(ApplyOutcome::PreloadFailed, false),
        s.stage == ApplyStage::AwaitingSet && !exit_success ==> step_spec(s, exit_success)
            == ApplyProgress::Done(ApplyOutcome::SetFailed, false),
        step_spec(s, exit_success) matches ApplyProgress::Done(outcome, run_reload) ==> (run_reload
            <==> outcome == ApplyOutcome::Success),
{
}

/// The argument list the external control CLI is invoked with for one
/// command, after its own binary name.
pub fn command_argv(cmd: &CompositorCmd) -> (r: Vec<String>)
    ensures
        cmd matches CompositorCmd::Preload(p) ==> (r@.len() == 3 && r@[0]@ == "hyprpaper"@
            && r@[1]@ == "preload"@ && r@[2]@ == p@),
        cmd matches CompositorCmd::SetWallpaper(pair) ==> (r@.len() == 3 && r@[0]@ == "hyprpaper"@
            && r@[1]@ == "wallpaper"@ && r@[2]@ == pair@),
        cmd matches CompositorCmd::Reload ==> (r@.len() == 2 && r@[0]@ == "hyprpaper"@ && r@[1]@
            == "reload"@),
{
    let mut argv: Vec<String> = Vec::new();
    argv.push(String::from_str("hyprpaper"));
    match cmd {
        CompositorCmd::Preload(p) => {
            argv.push(String::from_str("preload"));
            argv.push(p.clone());
        },
        CompositorCmd::SetWallpaper(pair) => {
            argv.push(String::from_str("wallpaper"));
            argv.push(pair.clone());
        },
        CompositorCmd::Reload => {
            argv.push(String::from_str("reload"));
        },
    }
    argv
}

/// How long an apply outcome's overlay stays on screen, in milliseconds.
pub const OVERLAY_DURATION_MS: u64 = 2000;

/// Whether a transient outcome overlay created at `created_ms` is still
/// shown at `now_ms` (both monotonic milliseconds): outcomes auto-expire
/// after a fixed two-second window.
pub fn overlay_visible(created_ms: u64, now_ms: u64) -> (r: bool)
    requires
        created_ms <= now_ms,
    ensures
        r <==> now_ms - created_ms < OVERLAY_DURATION_MS,
{
    now_ms - created_ms < OVERLAY_DURATION_MS
}

/// The path handed to the protocol: the canonical absolute form when the
/// caller could resolve one, the original path otherwise — resolution
/// failure deliberately falls back rather than failing the apply.
pub fn resolved_or_original(canonical: Option<String>, original: &String) -> (r: String)
    ensures
        canonical matches Some(c) ==> r == c,
        canonical is None ==> r == original,
{
    match canonical {
        Some(c) => c,
        None => original.clone(),
    }
}

} // verus!
