//! The startup sequencer: a linear state machine that decides, step by step,
//! what the application driver must do next while bringing the GUI shell and
//! its sidecar process up.

use vstd::prelude::*;

verus! {

/// Build-time configuration of the application. The only switch that the
/// startup sequence reads is whether this is a debug build.
#[derive(Clone, Copy, PartialEq, Eq, Structural, Debug)]
pub struct BuildConfig {
    /// True in a debug build, false in a release build.
    pub debug: bool,
}

/// A capability plugin that the startup sequence can ask the driver to
/// install on the application builder.
#[derive(Clone, Copy, PartialEq, Eq, Structural, Debug)]
pub enum Plugin {
    /// Logging restricted to informational severity and above.
    InfoLogging,
    /// Shell execution, which the sidecar spawn relies on.
    ShellExec,
}

/// What the driver reports back after performing an action: the action either
/// succeeded or failed.
#[derive(Clone, Copy, PartialEq, Eq, Structural, Debug)]
pub enum Outcome {
    Success,
    Failure,
}

/// The reason carried by a fatal termination.
#[derive(Clone, Copy, PartialEq, Eq, Structural, Debug)]
pub enum Diagnostic {
    /// A plugin could not be installed during the setup phase.
    SetupPluginFailure,
    /// The bundled sidecar executable could not be started.
    SidecarSpawnFailure,
    /// The GUI run loop failed to start or run.
    RunLoopFailure,
}

/// An instruction from the sequencer to the driver.
#[derive(Clone, Copy, PartialEq, Eq, Structural, Debug)]
pub enum Action {
    /// Install the given capability plugin on the application builder.
    InstallPlugin(Plugin),
    /// Start the bundled sidecar executable, exactly once, with no arguments.
    SpawnSidecar,
    /// Hand control to the blocking GUI run loop.
    EnterRunLoop,
    /// Terminate the whole program immediately with a diagnostic message.
    FailFast(Diagnostic),
    /// The run loop returned normally; the program is over.
    ExitNormally,
}

/// How a finished launch ended.
#[derive(Clone, Copy, PartialEq, Eq, Structural, Debug)]
pub enum Termination {
    /// The run loop was entered and later returned normally.
    NormalExit,
    /// A plugin failed to install; the application was never shown.
    SetupFailed,
    /// The sidecar could not be spawned; the application was never shown.
    SpawnFailed,
    /// The run loop itself failed.
    RunFailed,
}

/// Where the sequencer stands: which emitted action it is waiting on, or the
/// terminal state of the launch.
#[derive(Clone, Copy, PartialEq, Eq, Structural, Debug)]
pub enum Phase {
    /// Waiting for the outcome of installing the logging plugin.
    InstallingLogPlugin,
    /// Waiting for the outcome of installing the shell-execution plugin.
    InstallingShellPlugin,
    /// Waiting for the outcome of the sidecar spawn.
    SpawningSidecar,
    /// Waiting for the run loop to return.
    InRunLoop,
    /// The launch is over.
    Finished(Termination),
}

/// The first phase and the first emitted action of a launch. Only here does
/// the build configuration matter: a debug build begins by installing the
/// logging plugin, a release build skips straight to the shell plugin.
pub open spec fn start_state(cfg: BuildConfig) -> (Phase, Action) {
    if cfg.debug {
        (Phase::InstallingLogPlugin, Action::InstallPlugin(Plugin::InfoLogging))
    } else {
        (Phase::InstallingShellPlugin, Action::InstallPlugin(Plugin::ShellExec))
    }
}

/// One transition of the sequencer: given the phase and the outcome of the
/// action that phase was waiting on, the next phase and the next emitted
/// action. Any failure is fatal and carries its diagnostic; the sequence is
/// strictly linear otherwise. A finished phase never steps (callers exclude
/// it), so it is mapped to itself.
pub open spec fn next_state(phase: Phase, outcome: Outcome) -> (Phase, Action) {
    match phase {
        Phase::InstallingLogPlugin => match outcome {
            Outcome::Success => (
                Phase::InstallingShellPlugin,
                Action::InstallPlugin(Plugin::ShellExec),
            ),
            Outcome::Failure => (
                Phase::Finished(Termination::SetupFailed),
                Action::FailFast(Diagnostic::SetupPluginFailure),
            ),
        },
        Phase::InstallingShellPlugin => match outcome {
            Outcome::Success => (Phase::SpawningSidecar, Action::SpawnSidecar),
            Outcome::Failure => (
                Phase::Finished(Termination::SetupFailed),
                Action::FailFast(Diagnostic::SetupPluginFailure),
            ),
        },
        Phase::SpawningSidecar => match outcome {
            Outcome::Success => (Phase::InRunLoop, Action::EnterRunLoop),
            Outcome::Failure => (
                Phase::Finished(Termination::SpawnFailed),
                Action::FailFast(Diagnostic::SidecarSpawnFailure),
            ),
        },
        Phase::InRunLoop => match outcome {
            Outcome::Success => (
                Phase::Finished(Termination::NormalExit),
                Action::ExitNormally,
            ),
            Outcome::Failure => (
                Phase::Finished(Termination::RunFailed),
                Action::FailFast(Diagnostic::RunLoopFailure),
            ),
        },
        Phase::Finished(t) => (Phase::Finished(t), Action::ExitNormally),
    }
}

/// Begin a launch under the given configuration: the phase the sequencer
/// enters and the first action the driver must perform.
pub fn start(cfg: BuildConfig) -> (r: (Phase, Action))
    ensures
        r == start_state(cfg),
{
    if cfg.debug {
        (Phase::InstallingLogPlugin, Action::InstallPlugin(Plugin::InfoLogging))
    } else {
        (Phase::InstallingShellPlugin, Action::InstallPlugin(Plugin::ShellExec))
    }
}

/// Advance the sequencer by one step. The driver calls this with the outcome
/// of the action it was last handed; a finished launch has no pending action
/// and must not be stepped.
pub fn step(phase: Phase, outcome: Outcome) -> (r: (Phase, Action))
    requires
        !(phase is Finished),
    ensures
        r == next_state(phase, outcome),
{
    match phase {
        Phase::InstallingLogPlugin => match outcome {
            Outcome::Success => (
                Phase::InstallingShellPlugin,
                Action::InstallPlugin(Plugin::ShellExec),
            ),
            Outcome::Failure => (
                Phase::Finished(Termination::SetupFailed),
                Action::FailFast(Diagnostic::SetupPluginFailure),
            ),
        },
        Phase::InstallingShellPlugin => match outcome {
            Outcome::Success => (Phase::SpawningSidecar, Action::SpawnSidecar),
            Outcome::Failure => (
                Phase::Finished(Termination::SetupFailed),
                Action::FailFast(Diagnostic::SetupPluginFailure),
            ),
        },
        Phase::SpawningSidecar => match outcome {
            Outcome::Success => (Phase::InRunLoop, Action::EnterRunLoop),
            Outcome::Failure => (
                Phase::Finished(Termination::SpawnFailed),
                Action::FailFast(Diagnostic::SidecarSpawnFailure),
            ),
        },
        Phase::InRunLoop => match outcome {
            Outcome::Success => (
                Phase::Finished(Termination::NormalExit),
                Action::ExitNormally,
            ),
            Outcome::Failure => (
                Phase::Finished(Termination::RunFailed),
                Action::FailFast(Diagnostic::RunLoopFailure),
            ),
        },
        Phase::Finished(t) => (Phase::Finished(t), Action::ExitNormally),
    }
}

/// The actions a launch emits from the given phase onward when the driver
/// reports the given outcomes in order. The trace stops once the launch is
/// finished, and when the outcomes run out.
pub open spec fn trace_from(phase: Phase, outcomes: Seq<Outcome>) -> Seq<Action>
    decreases outcomes.len(),
{
    if outcomes.len() == 0 || phase is Finished {
        Seq::empty()
    } else {
        seq![next_state(phase, outcomes[0]).1] + trace_from(
            next_state(phase, outcomes[0]).0,
            outcomes.drop_first(),
        )
    }
}

/// The phase a launch stands in after the given outcomes, from the given
/// phase onward.
pub open spec fn phase_from(phase: Phase, outcomes: Seq<Outcome>) -> Phase
    decreases outcomes.len(),
{
    if outcomes.len() == 0 || phase is Finished {
        phase
    } else {
        phase_from(next_state(phase, outcomes[0]).0, outcomes.drop_first())
    }
}

/// Every action a whole launch emits under the given configuration: the
/// start action, then one action per reported outcome until the launch
/// finishes.
pub open spec fn launch_trace(cfg: BuildConfig, outcomes: Seq<Outcome>) -> Seq<Action> {
    seq![start_state(cfg).1] + trace_from(start_state(cfg).0, outcomes)
}

/// The phase a whole launch ends in under the given configuration and
/// outcomes.
pub open spec fn launch_phase(cfg: BuildConfig, outcomes: Seq<Outcome>) -> Phase {
    phase_from(start_state(cfg).0, outcomes)
}

/// Replay a whole launch: from the start, consume the driver's outcomes in
/// order until the launch finishes or they run out, and collect every action
/// the sequencer emitted on the way, together with the phase it stopped in.
pub fn launch(cfg: BuildConfig, outcomes: &Vec<Outcome>) -> (r: (Vec<Action>, Phase))
    ensures
        r.0@ == launch_trace(cfg, outcomes@),
        r.1 == launch_phase(cfg, outcomes@),
{
    let (p0, a0) = start(cfg);
    let mut actions: Vec<Action> = Vec::new();
    actions.push(a0);
    let mut phase = p0;
    let mut i: usize = 0;
    proof {
        assert(outcomes@.skip(0) =~= outcomes@);
        assert(actions@ =~= seq![a0]);
    }
    while i < outcomes.len() && !is_finished(&phase)
        invariant
            i <= outcomes.len(),
            actions@ + trace_from(phase, outcomes@.skip(i as int)) =~= launch_trace(
                cfg,
                outcomes@,
            ),
            phase_from(phase, outcomes@.skip(i as int)) == launch_phase(cfg, outcomes@),
        decreases outcomes.len() - i,
    {
        let ghost pre_actions = actions@;
        let ghost remaining = outcomes@.skip(i as int);
        let (p, a) = step(phase, outcomes[i]);
        proof {
            assert(remaining[0] == outcomes@[i as int]);
            assert(remaining.drop_first() =~= outcomes@.skip(i as int + 1));
            assert(trace_from(phase, remaining) =~= seq![a] + trace_from(p, remaining.drop_first()));
            assert(pre_actions.push(a) + trace_from(p, outcomes@.skip(i as int + 1)) =~= pre_actions
                + trace_from(phase, remaining));
        }
        actions.push(a);
        phase = p;
        i = i + 1;
    }
    proof {
        if i == outcomes.len() {
            assert(outcomes@.skip(i as int) =~= Seq::<Outcome>::empty());
        }
        assert(actions@ + trace_from(phase, outcomes@.skip(i as int)) =~= actions@);
        assert(actions@ =~= launch_trace(cfg, outcomes@));
    }
    (actions, phase)
}

/// Whether a launch is over, so that the driver knows to stop.
pub fn is_finished(phase: &Phase) -> (r: bool)
    ensures
        r == (*phase is Finished),
{
    matches!(phase, Phase::Finished(_))
}

} // verus!
