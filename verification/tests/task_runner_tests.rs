use xero_toolkit::command::{Command, CommandResult, CommandType, TaskStatus};
use xero_toolkit::task_runner::{
    clean_output, clock_label, command_header, exit_result, may_start, needs_daemon, next_step,
    resolve_command, start_failure_message, status_visuals, step_finished, timestamped, NextStep, StepEnd,
    CANCELLED_MESSAGE, NO_AUR_HELPER_MESSAGE,
};

fn s(v: &[&str]) -> Vec<String> {
    v.iter().map(|x| x.to_string()).collect()
}

#[test]
fn resolution_per_kind() {
    let n = Command::new(CommandType::Normal, "flatpak", &["list"], "List");
    assert_eq!(resolve_command(&n, None), Ok(("flatpak".to_string(), s(&["list"]))));
    let p = Command::new(CommandType::Privileged, "pacman", &["-Syy"], "Refresh");
    assert_eq!(resolve_command(&p, None), Ok(("/opt/xero-toolkit/xero-auth".to_string(), s(&["pacman", "-Syy"]))));
    let a = Command::builder().aur().args(&["-S", "steam"]).description("Steam").build();
    assert_eq!(resolve_command(&a, Some("paru")), Ok(("paru".to_string(), s(&["--sudo", "/opt/xero-toolkit/xero-auth", "-S", "steam"]))));
    assert_eq!(resolve_command(&a, None), Err(NO_AUR_HELPER_MESSAGE.to_string()));
}

#[test]
fn next_steps() {
    let cmds = vec![
        Command::new(CommandType::Normal, "echo", &["hi"], "Say hi"),
        Command::builder().aur().args(&["-S", "x"]).description("X").build(),
    ];
    match next_step(&cmds, 0, false, None) {
        NextStep::Launch { index, title, program, args } => {
            assert_eq!(index, 0);
            assert_eq!(title, "Say hi");
            assert_eq!(program, "echo");
            assert_eq!(args, s(&["hi"]));
        }
        other => panic!("unexpected {:?}", other),
    }
    match next_step(&cmds, 1, false, None) {
        NextStep::Abort { index, message } => {
            assert_eq!(index, 1);
            assert_eq!(message, format!("Failed to prepare command: {}", NO_AUR_HELPER_MESSAGE));
        }
        other => panic!("unexpected {:?}", other),
    }
    assert!(matches!(next_step(&cmds, 2, false, None), NextStep::Complete));
    assert!(matches!(next_step(&cmds, 1, true, None), NextStep::Cancel { mark: Some(1) }));
    assert!(matches!(next_step(&cmds, 2, true, None), NextStep::Cancel { mark: None }));
}

#[test]
fn step_outcomes() {
    assert!(matches!(step_finished(0, 2, false, &CommandResult::Success), StepEnd::Advance { next: 1 }));
    let fail = exit_result(false, Some(1));
    assert_eq!(fail.exit_code(), Some(1));
    match step_finished(1, 3, false, &fail) {
        StepEnd::Failed { message } => assert_eq!(message, "Operation failed at step 2 of 3"),
        other => panic!("unexpected {:?}", other),
    }
    let end = step_finished(0, 1, true, &CommandResult::Success);
    assert!(matches!(end, StepEnd::Cancelled));
    assert_eq!(end.status(), TaskStatus::Cancelled);
    assert!(exit_result(true, Some(0)).is_success());
    assert_eq!(CANCELLED_MESSAGE, "Operation cancelled by user");
}

#[test]
fn starting_a_run() {
    assert!(may_start(1, false));
    assert!(!may_start(0, false));
    assert!(!may_start(2, true));
    let normal = vec![Command::new(CommandType::Normal, "a", &[], "A")];
    assert!(!needs_daemon(&normal));
    let mixed = vec![Command::new(CommandType::Normal, "a", &[], "A"), Command::new(CommandType::Privileged, "b", &[], "B")];
    assert!(needs_daemon(&mixed));
}

#[test]
fn output_text() {
    assert_eq!(clock_label(Some(0)), "00:00:00");
    assert_eq!(clock_label(Some(3661)), "01:01:01");
    assert_eq!(clock_label(Some(86399 + 86400)), "23:59:59");
    assert_eq!(clock_label(None), "??:??:??");
    assert_eq!(timestamped("12:00:00", "done"), "[12:00:00] done");
    assert_eq!(command_header("Installing"), "\n=== Installing ===\n");
    assert_eq!(start_failure_message("no such file"), "Failed to start operation: no such file");
    assert_eq!(clean_output("\x1b[1;31mred\x1b[0m text"), "red text");
    assert_eq!(clean_output("plain"), "plain");
    assert_eq!(status_visuals(TaskStatus::Running), (true, None));
    assert_eq!(status_visuals(TaskStatus::Failed), (false, Some("circle-xmark")));
}
