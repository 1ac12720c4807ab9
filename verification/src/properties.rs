//! The laws of the startup sequence, proved once and for all over every
//! possible run: the sidecar is spawned at most once and exactly when the
//! plugin installations succeed, the run loop is entered exactly when the
//! spawn succeeds, logging is installed exactly in debug builds and changes
//! nothing else, failures are fatal, and installations precede the spawn.

use vstd::prelude::*;
use crate::sequencer::{
    Action, BuildConfig, Diagnostic, Outcome, Phase, Plugin, Termination, launch_phase,
    launch_trace, next_state, phase_from, start_state, trace_from,
};

verus! {

/// How many plugin-install actions a trace holds.
pub open spec fn install_count(t: Seq<Action>) -> nat
    decreases t.len(),
{
    if t.len() == 0 {
        0
    } else {
        (if t[0] is InstallPlugin {
            1nat
        } else {
            0nat
        }) + install_count(t.drop_first())
    }
}

/// How many sidecar-spawn actions a trace holds.
pub open spec fn spawn_count(t: Seq<Action>) -> nat
    decreases t.len(),
{
    if t.len() == 0 {
        0
    } else {
        (if t[0] is SpawnSidecar {
            1nat
        } else {
            0nat
        }) + spawn_count(t.drop_first())
    }
}

/// How many run-loop entries a trace holds.
pub open spec fn run_entry_count(t: Seq<Action>) -> nat
    decreases t.len(),
{
    if t.len() == 0 {
        0
    } else {
        (if t[0] is EnterRunLoop {
            1nat
        } else {
            0nat
        }) + run_entry_count(t.drop_first())
    }
}

/// How many installations of the logging plugin a trace holds.
pub open spec fn log_install_count(t: Seq<Action>) -> nat
    decreases t.len(),
{
    if t.len() == 0 {
        0
    } else {
        (if t[0] == Action::InstallPlugin(Plugin::InfoLogging) {
            1nat
        } else {
            0nat
        }) + log_install_count(t.drop_first())
    }
}

/// Unfolds each count over a trace with a known first action.
proof fn lemma_counts_cons(a: Action, t: Seq<Action>)
    ensures
        install_count(seq![a] + t) == (if a is InstallPlugin {
            1nat
        } else {
            0nat
        }) + install_count(t),
        spawn_count(seq![a] + t) == (if a is SpawnSidecar {
            1nat
        } else {
            0nat
        }) + spawn_count(t),
        run_entry_count(seq![a] + t) == (if a is EnterRunLoop {
            1nat
        } else {
            0nat
        }) + run_entry_count(t),
        log_install_count(seq![a] + t) == (if a == Action::InstallPlugin(Plugin::InfoLogging) {
            1nat
        } else {
            0nat
        }) + log_install_count(t),
{
    assert((seq![a] + t).len() == t.len() + 1);
    assert((seq![a] + t)[0] == a);
    assert((seq![a] + t).drop_first() =~= t);
}

/// Once the installing phases are past, no step ever emits another
/// plugin-install action.
proof fn lemma_no_install_after(phase: Phase, outs: Seq<Outcome>)
    requires
        phase is SpawningSidecar || phase is InRunLoop || phase is Finished,
    ensures
        install_count(trace_from(phase, outs)) == 0,
    decreases outs.len(),
{
    if outs.len() == 0 || phase is Finished {
    } else {
        let next = next_state(phase, outs[0]);
        lemma_no_install_after(next.0, outs.drop_first());
        lemma_counts_cons(next.1, trace_from(next.0, outs.drop_first()));
    }
}

/// A spawn action is only ever emitted while stepping out of the
/// shell-plugin phase, so any trace holds at most one, and a trace that
/// starts past that phase holds none.
proof fn lemma_spawn_count_from(phase: Phase, outs: Seq<Outcome>)
    ensures
        spawn_count(trace_from(phase, outs)) <= 1,
        (phase is SpawningSidecar || phase is InRunLoop || phase is Finished)
            ==> spawn_count(trace_from(phase, outs)) == 0,
    decreases outs.len(),
{
    if outs.len() == 0 || phase is Finished {
    } else {
        let next = next_state(phase, outs[0]);
        lemma_spawn_count_from(next.0, outs.drop_first());
        lemma_counts_cons(next.1, trace_from(next.0, outs.drop_first()));
    }
}

/// A run-loop entry is only ever emitted while stepping out of the spawn
/// phase, so any trace holds at most one, and a trace that starts past that
/// phase holds none.
proof fn lemma_run_entry_count_from(phase: Phase, outs: Seq<Outcome>)
    ensures
        run_entry_count(trace_from(phase, outs)) <= 1,
        (phase is InRunLoop || phase is Finished) ==> run_entry_count(trace_from(phase, outs))
            == 0,
    decreases outs.len(),
{
    if outs.len() == 0 || phase is Finished {
    } else {
        let next = next_state(phase, outs[0]);
        lemma_run_entry_count_from(next.0, outs.drop_first());
        lemma_counts_cons(next.1, trace_from(next.0, outs.drop_first()));
    }
}

/// No step ever emits an installation of the logging plugin: only the start
/// of a debug launch does.
proof fn lemma_steps_never_install_logging(phase: Phase, outs: Seq<Outcome>)
    ensures
        log_install_count(trace_from(phase, outs)) == 0,
    decreases outs.len(),
{
    if outs.len() == 0 || phase is Finished {
    } else {
        let next = next_state(phase, outs[0]);
        lemma_steps_never_install_logging(next.0, outs.drop_first());
        lemma_counts_cons(next.1, trace_from(next.0, outs.drop_first()));
    }
}

/// Whether every plugin installation of a launch succeeds, so that the
/// spawn request is issued: both installations in a debug build, the single
/// shell installation in a release build.
pub open spec fn installs_succeed(cfg: BuildConfig, outs: Seq<Outcome>) -> bool {
    if cfg.debug {
        outs.len() >= 2 && outs[0] is Success && outs[1] is Success
    } else {
        outs.len() >= 1 && outs[0] is Success
    }
}

/// Whether, beyond the installations, the spawn itself succeeds, so that
/// the run loop is entered.
pub open spec fn spawn_succeeds(cfg: BuildConfig, outs: Seq<Outcome>) -> bool {
    if cfg.debug {
        outs.len() >= 3 && outs[0] is Success && outs[1] is Success && outs[2] is Success
    } else {
        outs.len() >= 2 && outs[0] is Success && outs[1] is Success
    }
}

/// Law: a launch issues the sidecar spawn at most once — never a second
/// time on any later outcome — and exactly once when the plugin
/// installations succeed.
pub proof fn lemma_sidecar_spawned_at_most_once(cfg: BuildConfig, outs: Seq<Outcome>)
    ensures
        spawn_count(launch_trace(cfg, outs)) <= 1,
        spawn_count(launch_trace(cfg, outs)) == (if installs_succeed(cfg, outs) {
            1nat
        } else {
            0nat
        }),
{
    let p0 = start_state(cfg).0;
    let tail = trace_from(p0, outs);
    lemma_counts_cons(start_state(cfg).1, tail);
    if outs.len() == 0 {
    } else {
        let n1 = next_state(p0, outs[0]);
        let rest0 = outs.drop_first();
        lemma_counts_cons(n1.1, trace_from(n1.0, rest0));
        if cfg.debug {
            if outs[0] is Failure {
                lemma_spawn_count_from(n1.0, rest0);
            } else {
                if rest0.len() == 0 {
                } else {
                    assert(rest0[0] == outs[1]);
                    let n2 = next_state(n1.0, rest0[0]);
                    let rest1 = rest0.drop_first();
                    lemma_counts_cons(n2.1, trace_from(n2.0, rest1));
                    lemma_spawn_count_from(n2.0, rest1);
                }
            }
        } else {
            lemma_spawn_count_from(n1.0, rest0);
        }
    }
}

/// Law: a launch enters the run loop at most once, and exactly once when
/// the installations and the spawn all succeed.
pub proof fn lemma_run_loop_entered_iff_spawn_succeeds(cfg: BuildConfig, outs: Seq<Outcome>)
    ensures
        run_entry_count(launch_trace(cfg, outs)) <= 1,
        run_entry_count(launch_trace(cfg, outs)) == (if spawn_succeeds(cfg, outs) {
            1nat
        } else {
            0nat
        }),
{
    let p0 = start_state(cfg).0;
    lemma_counts_cons(start_state(cfg).1, trace_from(p0, outs));
    if outs.len() == 0 {
    } else {
        let n1 = next_state(p0, outs[0]);
        let rest0 = outs.drop_first();
        lemma_counts_cons(n1.1, trace_from(n1.0, rest0));
        if outs[0] is Failure || rest0.len() == 0 {
            lemma_run_entry_count_from(n1.0, rest0);
        } else {
            assert(rest0[0] == outs[1]);
            let n2 = next_state(n1.0, rest0[0]);
            let rest1 = rest0.drop_first();
            lemma_counts_cons(n2.1, trace_from(n2.0, rest1));
            if cfg.debug {
                if rest0[0] is Failure || rest1.len() == 0 {
                    lemma_run_entry_count_from(n2.0, rest1);
                } else {
                    assert(rest1[0] == outs[2]);
                    let n3 = next_state(n2.0, rest1[0]);
                    let rest2 = rest1.drop_first();
                    lemma_counts_cons(n3.1, trace_from(n3.0, rest2));
                    lemma_run_entry_count_from(n3.0, rest2);
                }
            } else {
                lemma_run_entry_count_from(n2.0, rest1);
            }
        }
    }
}

/// Law: the logging plugin is installed exactly once in a debug build and
/// never in a release build, whatever the outcomes are.
pub proof fn lemma_logging_installed_iff_debug(cfg: BuildConfig, outs: Seq<Outcome>)
    ensures
        log_install_count(launch_trace(cfg, outs)) == (if cfg.debug {
            1nat
        } else {
            0nat
        }),
{
    lemma_steps_never_install_logging(start_state(cfg).0, outs);
    lemma_counts_cons(start_state(cfg).1, trace_from(start_state(cfg).0, outs));
}

/// Law: a debug launch whose logging installation succeeds is the release
/// launch with the logging installation prepended. The presence of the
/// logging capability changes neither the later actions — the sidecar spawn
/// among them — nor the phase the launch ends in.
pub proof fn lemma_logging_does_not_change_the_rest(outs: Seq<Outcome>)
    ensures
        launch_trace(BuildConfig { debug: true }, seq![Outcome::Success] + outs) == seq![
            Action::InstallPlugin(Plugin::InfoLogging),
        ] + launch_trace(BuildConfig { debug: false }, outs),
        launch_phase(BuildConfig { debug: true }, seq![Outcome::Success] + outs) == launch_phase(
            BuildConfig { debug: false },
            outs,
        ),
{
    let din = seq![Outcome::Success] + outs;
    assert(din[0] is Success);
    assert(din.drop_first() =~= outs);
    assert(launch_trace(BuildConfig { debug: true }, din) =~= seq![
        Action::InstallPlugin(Plugin::InfoLogging),
    ] + launch_trace(BuildConfig { debug: false }, outs));
}

/// A trace with no install actions by count has none at any index.
proof fn lemma_zero_installs_means_none(t: Seq<Action>, i: int)
    requires
        install_count(t) == 0,
        0 <= i < t.len(),
    ensures
        !(t[i] is InstallPlugin),
    decreases t.len(),
{
    if i > 0 {
        lemma_zero_installs_means_none(t.drop_first(), i - 1);
    }
}

/// Everything that follows a spawn action in a trace is past the installing
/// phases, so no install action can stand after it.
proof fn lemma_no_install_after_spawn_from(phase: Phase, outs: Seq<Outcome>, j: int, i: int)
    requires
        0 <= j < i < trace_from(phase, outs).len(),
        trace_from(phase, outs)[j] is SpawnSidecar,
    ensures
        !(trace_from(phase, outs)[i] is InstallPlugin),
    decreases outs.len(),
{
    let t = trace_from(phase, outs);
    let next = next_state(phase, outs[0]);
    let rest = trace_from(next.0, outs.drop_first());
    assert(t =~= seq![next.1] + rest);
    if j == 0 {
        assert(next.1 is SpawnSidecar);
        assert(next.0 is SpawningSidecar);
        lemma_no_install_after(next.0, outs.drop_first());
        lemma_zero_installs_means_none(rest, i - 1);
        assert(t[i] == rest[i - 1]);
    } else {
        lemma_no_install_after_spawn_from(next.0, outs.drop_first(), j - 1, i - 1);
        assert(t[j] == rest[j - 1]);
        assert(t[i] == rest[i - 1]);
    }
}

/// Law: the order of the setup steps is preserved: in any launch trace,
/// every plugin installation stands before the sidecar spawn.
pub proof fn lemma_installs_precede_spawn(cfg: BuildConfig, outs: Seq<Outcome>, i: int, j: int)
    requires
        0 <= i < launch_trace(cfg, outs).len(),
        0 <= j < launch_trace(cfg, outs).len(),
        launch_trace(cfg, outs)[i] is InstallPlugin,
        launch_trace(cfg, outs)[j] is SpawnSidecar,
    ensures
        i < j,
{
    let t = launch_trace(cfg, outs);
    let tail = trace_from(start_state(cfg).0, outs);
    assert(t =~= seq![start_state(cfg).1] + tail);
    if j <= i {
        assert(j != i);
        assert(j >= 1);
        assert(t[j] == tail[j - 1]);
        assert(t[i] == tail[i - 1]);
        lemma_no_install_after_spawn_from(start_state(cfg).0, outs, j - 1, i - 1);
        assert(false);
    }
}

/// Law: when every step succeeds, the launch performs the full canonical
/// sequence — logging installation in a debug build only, then the shell
/// installation, one sidecar spawn, one run-loop entry — and ends in a
/// normal exit.
pub proof fn lemma_successful_launch(cfg: BuildConfig, outs: Seq<Outcome>)
    requires
        outs.len() == (if cfg.debug {
            4int
        } else {
            3int
        }),
        forall|i: int| 0 <= i < outs.len() ==> outs[i] is Success,
    ensures
        launch_trace(cfg, outs) == (if cfg.debug {
            seq![
                Action::InstallPlugin(Plugin::InfoLogging),
                Action::InstallPlugin(Plugin::ShellExec),
                Action::SpawnSidecar,
                Action::EnterRunLoop,
                Action::ExitNormally,
            ]
        } else {
            seq![
                Action::InstallPlugin(Plugin::ShellExec),
                Action::SpawnSidecar,
                Action::EnterRunLoop,
                Action::ExitNormally,
            ]
        }),
        launch_phase(cfg, outs) == Phase::Finished(Termination::NormalExit),
        spawn_count(launch_trace(cfg, outs)) == 1,
        run_entry_count(launch_trace(cfg, outs)) == 1,
{
    let rest0 = outs.drop_first();
    let rest1 = rest0.drop_first();
    let rest2 = rest1.drop_first();
    assert(outs[0] is Success);
    assert(rest0[0] == outs[1] && rest0[0] is Success);
    assert(rest1[0] == outs[2] && rest1[0] is Success);
    lemma_sidecar_spawned_at_most_once(cfg, outs);
    lemma_run_loop_entered_iff_spawn_succeeds(cfg, outs);
    if cfg.debug {
        let rest3 = rest2.drop_first();
        assert(rest2[0] == outs[3] && rest2[0] is Success);
        assert(trace_from(Phase::InRunLoop, rest2) =~= seq![Action::ExitNormally] + trace_from(
            Phase::Finished(Termination::NormalExit),
            rest3,
        ));
        assert(trace_from(Phase::SpawningSidecar, rest1) =~= seq![Action::EnterRunLoop]
            + trace_from(Phase::InRunLoop, rest2));
        assert(trace_from(Phase::InstallingShellPlugin, rest0) =~= seq![Action::SpawnSidecar]
            + trace_from(Phase::SpawningSidecar, rest1));
        assert(trace_from(Phase::InstallingLogPlugin, outs) =~= seq![
            Action::InstallPlugin(Plugin::ShellExec),
        ] + trace_from(Phase::InstallingShellPlugin, rest0));
        assert(launch_trace(cfg, outs) =~= seq![
            Action::InstallPlugin(Plugin::InfoLogging),
            Action::InstallPlugin(Plugin::ShellExec),
            Action::SpawnSidecar,
            Action::EnterRunLoop,
            Action::ExitNormally,
        ]);
        assert(phase_from(Phase::InstallingLogPlugin, outs) == phase_from(
            Phase::InstallingShellPlugin,
            rest0,
        ));
        assert(phase_from(Phase::InstallingShellPlugin, rest0) == phase_from(
            Phase::SpawningSidecar,
            rest1,
        ));
        assert(phase_from(Phase::SpawningSidecar, rest1) == phase_from(Phase::InRunLoop, rest2));
        assert(phase_from(Phase::InRunLoop, rest2) == phase_from(
            Phase::Finished(Termination::NormalExit),
            rest3,
        ));
    } else {
        assert(trace_from(Phase::InRunLoop, rest1) =~= seq![Action::ExitNormally] + trace_from(
            Phase::Finished(Termination::NormalExit),
            rest2,
        ));
        assert(trace_from(Phase::SpawningSidecar, rest0) =~= seq![Action::EnterRunLoop]
            + trace_from(Phase::InRunLoop, rest1));
        assert(trace_from(Phase::InstallingShellPlugin, outs) =~= seq![Action::SpawnSidecar]
            + trace_from(Phase::SpawningSidecar, rest0));
        assert(launch_trace(cfg, outs) =~= seq![
            Action::InstallPlugin(Plugin::ShellExec),
            Action::SpawnSidecar,
            Action::EnterRunLoop,
            Action::ExitNormally,
        ]);
        assert(phase_from(Phase::InstallingShellPlugin, outs) == phase_from(
            Phase::SpawningSidecar,
            rest0,
        ));
        assert(phase_from(Phase::SpawningSidecar, rest0) == phase_from(Phase::InRunLoop, rest1));
        assert(phase_from(Phase::InRunLoop, rest1) == phase_from(
            Phase::Finished(Termination::NormalExit),
            rest2,
        ));
    }
}

/// Law: when the installations succeed but the sidecar cannot be started,
/// the launch terminates at once with the spawn diagnostic: the run loop is
/// never entered, whatever outcomes might follow.
pub proof fn lemma_spawn_failure_is_fatal(cfg: BuildConfig, outs: Seq<Outcome>)
    requires
        installs_succeed(cfg, outs),
        outs.len() > (if cfg.debug {
            2int
        } else {
            1int
        }),
        outs[if cfg.debug {
            2int
        } else {
            1int
        }] is Failure,
    ensures
        launch_trace(cfg, outs) == (if cfg.debug {
            seq![
                Action::InstallPlugin(Plugin::InfoLogging),
                Action::InstallPlugin(Plugin::ShellExec),
                Action::SpawnSidecar,
                Action::FailFast(Diagnostic::SidecarSpawnFailure),
            ]
        } else {
            seq![
                Action::InstallPlugin(Plugin::ShellExec),
                Action::SpawnSidecar,
                Action::FailFast(Diagnostic::SidecarSpawnFailure),
            ]
        }),
        launch_phase(cfg, outs) == Phase::Finished(Termination::SpawnFailed),
        run_entry_count(launch_trace(cfg, outs)) == 0,
{
    let rest0 = outs.drop_first();
    let rest1 = rest0.drop_first();
    assert(rest0[0] == outs[1]);
    lemma_run_loop_entered_iff_spawn_succeeds(cfg, outs);
    if cfg.debug {
        let rest2 = rest1.drop_first();
        assert(rest1[0] == outs[2] && rest1[0] is Failure);
        assert(trace_from(Phase::SpawningSidecar, rest1) =~= seq![
            Action::FailFast(Diagnostic::SidecarSpawnFailure),
        ] + trace_from(Phase::Finished(Termination::SpawnFailed), rest2));
        assert(trace_from(Phase::InstallingShellPlugin, rest0) =~= seq![Action::SpawnSidecar]
            + trace_from(Phase::SpawningSidecar, rest1));
        assert(trace_from(Phase::InstallingLogPlugin, outs) =~= seq![
            Action::InstallPlugin(Plugin::ShellExec),
        ] + trace_from(Phase::InstallingShellPlugin, rest0));
        assert(launch_trace(cfg, outs) =~= seq![
            Action::InstallPlugin(Plugin::InfoLogging),
            Action::InstallPlugin(Plugin::ShellExec),
            Action::SpawnSidecar,
            Action::FailFast(Diagnostic::SidecarSpawnFailure),
        ]);
        assert(phase_from(Phase::InstallingLogPlugin, outs) == phase_from(
            Phase::InstallingShellPlugin,
            rest0,
        ));
        assert(phase_from(Phase::InstallingShellPlugin, rest0) == phase_from(
            Phase::SpawningSidecar,
            rest1,
        ));
        assert(phase_from(Phase::SpawningSidecar, rest1) == phase_from(
            Phase::Finished(Termination::SpawnFailed),
            rest2,
        ));
    } else {
        assert(outs[1] is Failure);
        assert(trace_from(Phase::SpawningSidecar, rest0) =~= seq![
            Action::FailFast(Diagnostic::SidecarSpawnFailure),
        ] + trace_from(Phase::Finished(Termination::SpawnFailed), rest1));
        assert(trace_from(Phase::InstallingShellPlugin, outs) =~= seq![Action::SpawnSidecar]
            + trace_from(Phase::SpawningSidecar, rest0));
        assert(launch_trace(cfg, outs) =~= seq![
            Action::InstallPlugin(Plugin::ShellExec),
            Action::SpawnSidecar,
            Action::FailFast(Diagnostic::SidecarSpawnFailure),
        ]);
        assert(phase_from(Phase::InstallingShellPlugin, outs) == phase_from(
            Phase::SpawningSidecar,
            rest0,
        ));
        assert(phase_from(Phase::SpawningSidecar, rest0) == phase_from(
            Phase::Finished(Termination::SpawnFailed),
            rest1,
        ));
    }
}

/// Law: a plugin-installation failure aborts the launch before the sidecar
/// spawn is ever attempted: nothing is spawned, the run loop is never
/// entered, and the launch ends with the setup diagnostic.
pub proof fn lemma_setup_failure_prevents_spawn(cfg: BuildConfig, outs: Seq<Outcome>, k: int)
    requires
        0 <= k < (if cfg.debug {
            2int
        } else {
            1int
        }),
        k < outs.len(),
        forall|i: int| 0 <= i < k ==> outs[i] is Success,
        outs[k] is Failure,
    ensures
        spawn_count(launch_trace(cfg, outs)) == 0,
        run_entry_count(launch_trace(cfg, outs)) == 0,
        launch_phase(cfg, outs) == Phase::Finished(Termination::SetupFailed),
        launch_trace(cfg, outs).last() == Action::FailFast(Diagnostic::SetupPluginFailure),
{
    let rest0 = outs.drop_first();
    lemma_sidecar_spawned_at_most_once(cfg, outs);
    lemma_run_loop_entered_iff_spawn_succeeds(cfg, outs);
    if k == 0 {
        assert(outs[0] is Failure);
        assert(trace_from(start_state(cfg).0, outs) =~= seq![
            Action::FailFast(Diagnostic::SetupPluginFailure),
        ] + trace_from(Phase::Finished(Termination::SetupFailed), rest0));
        assert(launch_trace(cfg, outs) =~= seq![
            start_state(cfg).1,
            Action::FailFast(Diagnostic::SetupPluginFailure),
        ]);
        assert(phase_from(start_state(cfg).0, outs) == phase_from(
            Phase::Finished(Termination::SetupFailed),
            rest0,
        ));
    } else {
        let rest1 = rest0.drop_first();
        assert(outs[0] is Success);
        assert(rest0[0] == outs[1] && rest0[0] is Failure);
        assert(trace_from(Phase::InstallingShellPlugin, rest0) =~= seq![
            Action::FailFast(Diagnostic::SetupPluginFailure),
        ] + trace_from(Phase::Finished(Termination::SetupFailed), rest1));
        assert(trace_from(Phase::InstallingLogPlugin, outs) =~= seq![
            Action::InstallPlugin(Plugin::ShellExec),
        ] + trace_from(Phase::InstallingShellPlugin, rest0));
        assert(launch_trace(cfg, outs) =~= seq![
            Action::InstallPlugin(Plugin::InfoLogging),
            Action::InstallPlugin(Plugin::ShellExec),
            Action::FailFast(Diagnostic::SetupPluginFailure),
        ]);
        assert(phase_from(Phase::InstallingLogPlugin, outs) == phase_from(
            Phase::InstallingShellPlugin,
            rest0,
        ));
        assert(phase_from(Phase::InstallingShellPlugin, rest0) == phase_from(
            Phase::Finished(Termination::SetupFailed),
            rest1,
        ));
    }
}

} // verus!
