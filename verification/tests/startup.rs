use corsproxy_shell::sequencer::{
    is_finished, launch, start, step, Action, BuildConfig, Diagnostic, Outcome, Phase, Plugin,
    Termination,
};
use corsproxy_shell::sidecar::{sidecar_args, sidecar_program};

fn debug_cfg() -> BuildConfig {
    BuildConfig { debug: true }
}

fn release_cfg() -> BuildConfig {
    BuildConfig { debug: false }
}

fn spawn_count(actions: &[Action]) -> usize {
    actions.iter().filter(|a| matches!(a, Action::SpawnSidecar)).count()
}

fn run_entry_count(actions: &[Action]) -> usize {
    actions.iter().filter(|a| matches!(a, Action::EnterRunLoop)).count()
}

#[test]
fn successful_launch_in_debug() {
    let outcomes = vec![
        Outcome::Success,
        Outcome::Success,
        Outcome::Success,
        Outcome::Success,
    ];
    let (actions, phase) = launch(debug_cfg(), &outcomes);
    assert_eq!(
        actions,
        vec![
            Action::InstallPlugin(Plugin::InfoLogging),
            Action::InstallPlugin(Plugin::ShellExec),
            Action::SpawnSidecar,
            Action::EnterRunLoop,
            Action::ExitNormally,
        ]
    );
    assert_eq!(phase, Phase::Finished(Termination::NormalExit));
    assert_eq!(spawn_count(&actions), 1);
    assert_eq!(run_entry_count(&actions), 1);
}

#[test]
fn successful_launch_in_release() {
    let outcomes = vec![Outcome::Success, Outcome::Success, Outcome::Success];
    let (actions, phase) = launch(release_cfg(), &outcomes);
    assert_eq!(
        actions,
        vec![
            Action::InstallPlugin(Plugin::ShellExec),
            Action::SpawnSidecar,
            Action::EnterRunLoop,
            Action::ExitNormally,
        ]
    );
    assert_eq!(phase, Phase::Finished(Termination::NormalExit));
    assert_eq!(spawn_count(&actions), 1);
    assert_eq!(run_entry_count(&actions), 1);
}

#[test]
fn spawn_failure_terminates_without_run_loop() {
    let outcomes = vec![Outcome::Success, Outcome::Success, Outcome::Failure];
    let (actions, phase) = launch(debug_cfg(), &outcomes);
    assert_eq!(
        actions,
        vec![
            Action::InstallPlugin(Plugin::InfoLogging),
            Action::InstallPlugin(Plugin::ShellExec),
            Action::SpawnSidecar,
            Action::FailFast(Diagnostic::SidecarSpawnFailure),
        ]
    );
    assert_eq!(phase, Phase::Finished(Termination::SpawnFailed));
    assert_eq!(run_entry_count(&actions), 0);
}

#[test]
fn spawn_failure_in_release() {
    let outcomes = vec![Outcome::Success, Outcome::Failure];
    let (actions, phase) = launch(release_cfg(), &outcomes);
    assert_eq!(
        actions,
        vec![
            Action::InstallPlugin(Plugin::ShellExec),
            Action::SpawnSidecar,
            Action::FailFast(Diagnostic::SidecarSpawnFailure),
        ]
    );
    assert_eq!(phase, Phase::Finished(Termination::SpawnFailed));
    assert_eq!(run_entry_count(&actions), 0);
}

#[test]
fn debug_gates_logging_only() {
    let debug_outcomes = vec![
        Outcome::Success,
        Outcome::Success,
        Outcome::Success,
        Outcome::Success,
    ];
    let release_outcomes = vec![Outcome::Success, Outcome::Success, Outcome::Success];
    let (debug_actions, debug_phase) = launch(debug_cfg(), &debug_outcomes);
    let (release_actions, release_phase) = launch(release_cfg(), &release_outcomes);
    assert_eq!(
        debug_actions[0],
        Action::InstallPlugin(Plugin::InfoLogging)
    );
    assert_eq!(&debug_actions[1..], &release_actions[..]);
    assert_eq!(debug_phase, release_phase);
    assert!(!release_actions.contains(&Action::InstallPlugin(Plugin::InfoLogging)));
    assert_eq!(spawn_count(&debug_actions), spawn_count(&release_actions));
}

#[test]
fn sidecar_not_respawned_on_later_events() {
    let extra = vec![
        Outcome::Success,
        Outcome::Success,
        Outcome::Success,
        Outcome::Success,
        Outcome::Success,
        Outcome::Failure,
    ];
    let (actions, phase) = launch(debug_cfg(), &extra);
    assert_eq!(spawn_count(&actions), 1);
    assert_eq!(actions.len(), 5);
    assert_eq!(phase, Phase::Finished(Termination::NormalExit));
}

#[test]
fn setup_failure_on_log_plugin_prevents_spawn() {
    let outcomes = vec![Outcome::Failure];
    let (actions, phase) = launch(debug_cfg(), &outcomes);
    assert_eq!(
        actions,
        vec![
            Action::InstallPlugin(Plugin::InfoLogging),
            Action::FailFast(Diagnostic::SetupPluginFailure),
        ]
    );
    assert_eq!(phase, Phase::Finished(Termination::SetupFailed));
    assert_eq!(spawn_count(&actions), 0);
    assert_eq!(run_entry_count(&actions), 0);
}

#[test]
fn setup_failure_on_shell_plugin_prevents_spawn() {
    let outcomes = vec![Outcome::Success, Outcome::Failure];
    let (actions, phase) = launch(debug_cfg(), &outcomes);
    assert_eq!(
        actions,
        vec![
            Action::InstallPlugin(Plugin::InfoLogging),
            Action::InstallPlugin(Plugin::ShellExec),
            Action::FailFast(Diagnostic::SetupPluginFailure),
        ]
    );
    assert_eq!(phase, Phase::Finished(Termination::SetupFailed));
    assert_eq!(spawn_count(&actions), 0);
    assert_eq!(run_entry_count(&actions), 0);
}

#[test]
fn plugins_installed_before_spawn() {
    let outcomes = vec![
        Outcome::Success,
        Outcome::Success,
        Outcome::Success,
        Outcome::Success,
    ];
    let (actions, _) = launch(debug_cfg(), &outcomes);
    let spawn_at = actions
        .iter()
        .position(|a| matches!(a, Action::SpawnSidecar))
        .unwrap();
    for (i, a) in actions.iter().enumerate() {
        if matches!(a, Action::InstallPlugin(_)) {
            assert!(i < spawn_at);
        }
    }
}

#[test]
fn run_loop_failure_is_fatal() {
    let outcomes = vec![
        Outcome::Success,
        Outcome::Success,
        Outcome::Success,
        Outcome::Failure,
    ];
    let (actions, phase) = launch(debug_cfg(), &outcomes);
    assert_eq!(
        actions.last(),
        Some(&Action::FailFast(Diagnostic::RunLoopFailure))
    );
    assert_eq!(phase, Phase::Finished(Termination::RunFailed));
}

#[test]
fn empty_outcomes_stop_after_first_action() {
    let outcomes: Vec<Outcome> = vec![];
    let (actions, phase) = launch(debug_cfg(), &outcomes);
    assert_eq!(actions, vec![Action::InstallPlugin(Plugin::InfoLogging)]);
    assert_eq!(phase, Phase::InstallingLogPlugin);
    assert!(!is_finished(&phase));
}

#[test]
fn manual_stepping_matches_launch() {
    let outcomes = vec![Outcome::Success, Outcome::Success, Outcome::Failure];
    let (expected_actions, expected_phase) = launch(release_cfg(), &outcomes);
    let (mut phase, first) = start(release_cfg());
    let mut actions = vec![first];
    let mut i = 0;
    while i < outcomes.len() && !is_finished(&phase) {
        let (next_phase, action) = step(phase, outcomes[i]);
        actions.push(action);
        phase = next_phase;
        i += 1;
    }
    assert_eq!(actions, expected_actions);
    assert_eq!(phase, expected_phase);
}

#[test]
fn sidecar_command_is_fixed_and_argument_free() {
    assert_eq!(sidecar_program(), "binaries/corsproxy");
    assert!(sidecar_args().is_empty());
}

#[test]
fn diagnostic_messages_are_exact() {
    assert_eq!(
        Diagnostic::SetupPluginFailure.message(),
        "failed to install a plugin during setup"
    );
    assert_eq!(
        Diagnostic::SidecarSpawnFailure.message(),
        "Failed to spawn sidecar"
    );
    assert_eq!(
        Diagnostic::RunLoopFailure.message(),
        "error while running tauri application"
    );
}
