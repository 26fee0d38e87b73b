use rails_new::invocation::StdinMode;
use rails_new::rails_new::{Cli, Commands};
use rails_new::workflow::{
    exit_status, Action, Event, Platform, Stage, Workflow, ABNORMAL_EXIT, ORCHESTRATION_FAILURE,
};
use rails_new::{unix, windows};

fn cli(rails: Option<&str>, help: bool) -> Cli {
    Cli {
        args: vec!["my_app".to_string(), "--api".to_string()],
        ruby_version: "3.2.3".to_string(),
        rails_version: rails.map(|r| r.to_string()),
        rebuild: false,
        command: if help { Some(Commands::RailsHelp) } else { None },
    }
}

fn windows_workflow(help: bool) -> Workflow {
    Workflow::new(cli(Some("7.1.3"), help), Platform::Windows)
}

fn expect_build(action: Action) -> Vec<String> {
    match action {
        Action::SpawnBuild(inv) => {
            assert_eq!(inv.program, "docker");
            assert_eq!(inv.stdin, StdinMode::Piped);
            inv.args
        }
        other => panic!("expected a build, got {:?}", other),
    }
}

fn expect_run(action: Action) -> Vec<String> {
    match action {
        Action::SpawnRun(inv) => {
            assert_eq!(inv.program, "docker");
            assert_eq!(inv.stdin, StdinMode::Inherited);
            inv.args
        }
        other => panic!("expected a run, got {:?}", other),
    }
}

fn expect_exit(action: Action) -> i32 {
    match action {
        Action::Exit(code) => code,
        other => panic!("expected an exit, got {:?}", other),
    }
}

#[test]
fn full_run_on_windows() {
    let mut w = windows_workflow(false);
    assert_eq!(w.stage, Stage::Idle);
    assert_eq!(w.user_id, None);
    assert_eq!(w.group_id, None);
    let build = expect_build(w.step(Event::Start));
    assert_eq!(
        build,
        vec![
            "build",
            "--build-arg",
            "RUNTIME_VERSION=3.2.3",
            "--build-arg",
            "FRAMEWORK_VERSION=7.1.3",
            "-t",
            "rails-new-3.2.3-7.1.3",
            "-",
        ]
    );
    assert_eq!(w.stage, Stage::Building);
    assert!(matches!(w.step(Event::BuildExited(Some(0))), Action::ResolveWorkdir));
    assert_eq!(w.stage, Stage::Resolving);
    let run = expect_run(w.step(Event::WorkdirResolved(r"\\?\C:\src\apps".to_string())));
    assert_eq!(
        run,
        vec![
            "run",
            "--rm",
            "-v",
            "/C/src/apps:/C/src/apps",
            "-w",
            "/C/src/apps",
            "rails-new-3.2.3-7.1.3",
            "rails",
            "new",
            "my_app",
            "--api",
        ]
    );
    assert_eq!(w.stage, Stage::Running);
    assert_eq!(expect_exit(w.step(Event::RunExited(Some(0)))), 0);
    assert_eq!(w.stage, Stage::Done);
}

#[test]
fn unix_build_passes_the_callers_identity() {
    let mut w = Workflow::new(cli(None, false), Platform::Unix);
    let uid = w.user_id.expect("a user id");
    let gid = w.group_id.expect("a group id");
    let build = expect_build(w.step(Event::Start));
    assert_eq!(
        build,
        vec![
            "build".to_string(),
            "--build-arg".to_string(),
            "RUNTIME_VERSION=3.2.3".to_string(),
            "--build-arg".to_string(),
            format!("USER_ID={}", uid),
            "--build-arg".to_string(),
            format!("GROUP_ID={}", gid),
            "-t".to_string(),
            "rails-new-3.2.3".to_string(),
            "-".to_string(),
        ]
    );
    assert!(matches!(w.step(Event::BuildExited(Some(0))), Action::ResolveWorkdir));
    let run = expect_run(w.step(Event::WorkdirResolved("/home/dev".to_string())));
    assert_eq!(&run[2..6], ["-v", "/home/dev:/home/dev", "-w", "/home/dev"]);
}

#[test]
fn failed_build_skips_the_run() {
    let mut w = windows_workflow(false);
    expect_build(w.step(Event::Start));
    assert_eq!(expect_exit(w.step(Event::BuildExited(Some(17)))), 17);
    assert_eq!(w.stage, Stage::Done);
    assert_eq!(
        expect_exit(w.step(Event::WorkdirResolved("/tmp".to_string()))),
        ORCHESTRATION_FAILURE
    );
}

#[test]
fn failed_help_build_skips_the_help() {
    let mut w = windows_workflow(true);
    expect_build(w.step(Event::Start));
    assert_eq!(expect_exit(w.step(Event::BuildExited(Some(1)))), 1);
    assert_eq!(w.stage, Stage::Done);
}

#[test]
fn build_killed_by_a_signal() {
    let mut w = windows_workflow(false);
    expect_build(w.step(Event::Start));
    assert_eq!(expect_exit(w.step(Event::BuildExited(None))), ABNORMAL_EXIT);
}

#[test]
fn help_runs_without_binding() {
    let mut w = windows_workflow(true);
    expect_build(w.step(Event::Start));
    let help = expect_run(w.step(Event::BuildExited(Some(0))));
    assert_eq!(
        help,
        vec!["run", "--rm", "rails-new-3.2.3-7.1.3", "rails", "new", "--help"]
    );
    assert_eq!(expect_exit(w.step(Event::RunExited(Some(3)))), 3);
}

#[test]
fn orchestration_failures() {
    let mut w = windows_workflow(false);
    expect_build(w.step(Event::Start));
    assert_eq!(expect_exit(w.step(Event::SpawnFailed)), ORCHESTRATION_FAILURE);

    let mut w = windows_workflow(false);
    expect_build(w.step(Event::Start));
    assert_eq!(expect_exit(w.step(Event::PayloadWriteFailed)), ORCHESTRATION_FAILURE);

    let mut w = windows_workflow(false);
    expect_build(w.step(Event::Start));
    w.step(Event::BuildExited(Some(0)));
    assert_eq!(expect_exit(w.step(Event::WorkdirFailed)), ORCHESTRATION_FAILURE);

    let mut w = windows_workflow(false);
    assert_eq!(expect_exit(w.step(Event::RunExited(Some(0)))), ORCHESTRATION_FAILURE);
    assert_eq!(w.stage, Stage::Done);
}

#[test]
fn exit_status_mirrors_the_code() {
    assert_eq!(exit_status(Some(0)), 0);
    assert_eq!(exit_status(Some(42)), 42);
    assert_eq!(exit_status(None), ABNORMAL_EXIT);
}

#[test]
fn platform_capabilities() {
    assert!(!Platform::Unix.verbatim_paths());
    assert!(Platform::Windows.verbatim_paths());
    assert_eq!(Platform::Unix.dockerfile_content(), unix::dockerfile_content());
    assert_eq!(Platform::Windows.dockerfile_content(), windows::dockerfile_content());
}

#[test]
fn identities_by_platform() {
    assert!(unix::get_user_id().is_some());
    assert!(unix::get_group_id().is_some());
    assert_eq!(windows::get_user_id(), None);
    assert_eq!(windows::get_group_id(), None);
}

#[test]
fn dockerfiles_read_the_build_arguments() {
    let u = unix::dockerfile_content();
    let w = windows::dockerfile_content();
    for key in ["RUNTIME_VERSION", "FRAMEWORK_VERSION"] {
        assert!(u.contains(key));
        assert!(w.contains(key));
    }
    assert!(u.contains("USER_ID"));
    assert!(u.contains("GROUP_ID"));
    assert!(!w.contains("USER_ID"));
}

#[test]
fn cli_helpers() {
    let pinned = cli(Some("7.1.3"), false);
    assert_eq!(pinned.rails_version_str(), Some("7.1.3"));
    assert!(!pinned.is_help());
    let help = cli(None, true);
    assert_eq!(help.rails_version_str(), None);
    assert!(help.is_help());
}
