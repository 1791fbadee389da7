use xero_toolkit::command::{Command, CommandResult, CommandSequence, CommandType, TaskStatus};

#[test]
fn builder_builds_each_kind() {
    let c = Command::builder().normal().program("flatpak").args(&["install", "-y"]).arg("app").description("Installing app...").build();
    assert_eq!(c.command_type, CommandType::Normal);
    assert_eq!(c.program, "flatpak");
    assert_eq!(c.args, vec!["install".to_string(), "-y".to_string(), "app".to_string()]);
    assert_eq!(c.description, "Installing app...");
    let p = Command::builder().privileged().program("pacman").args(&["-Syy"]).description("Refreshing...").build();
    assert_eq!(p.command_type, CommandType::Privileged);
    let a = Command::builder().aur().args(&["-S", "steam"]).description("Steam").build();
    assert_eq!(a.command_type, CommandType::Aur);
    assert_eq!(a.program, "aur");
    assert!(!Command::builder().normal().description("x").is_complete());
    // `args` sets the whole list, replacing what `arg` added before.
    let r = Command::builder().normal().program("p").arg("old").args(&["new"]).description("d").build();
    assert_eq!(r.args, vec!["new".to_string()]);
}

#[test]
fn new_sets_every_field() {
    let c = Command::new(CommandType::Privileged, "systemctl", &["enable", "x"], "Enabling x...");
    assert_eq!(c.command_type, CommandType::Privileged);
    assert_eq!(c.program, "systemctl");
    assert_eq!(c.args.len(), 2);
    assert_eq!(c.description, "Enabling x...");
}

#[test]
fn results() {
    let ok = CommandResult::Success;
    assert!(ok.is_success());
    assert!(!ok.is_failure());
    assert_eq!(ok.exit_code(), None);
    assert_eq!(ok.error_message(), "");
    let f = CommandResult::Failure { exit_code: Some(2), stdout: Some("out".to_string()), stderr: Some("  err \n".to_string()) };
    assert!(f.is_failure());
    assert_eq!(f.exit_code(), Some(2));
    assert_eq!(f.error_message(), "err (exit code: 2)");
    let g = CommandResult::Failure { exit_code: None, stdout: Some(" out ".to_string()), stderr: None };
    assert_eq!(g.error_message(), "out");
    let h = CommandResult::Failure { exit_code: Some(-1), stdout: None, stderr: None };
    assert_eq!(h.error_message(), "No output captured (exit code: -1)");
}

#[test]
fn sequences_keep_order() {
    let s = CommandSequence::new();
    assert!(s.is_empty());
    assert!(CommandSequence::default().is_empty());
    let s = s
        .then_run(Command::new(CommandType::Normal, "a", &[], "A"))
        .then_run(Command::new(CommandType::Normal, "b", &[], "B"))
        .build();
    assert!(!s.is_empty());
    assert_eq!(s.commands().len(), 2);
    let v = s.into_commands();
    assert_eq!(v[0].program, "a");
    assert_eq!(v[1].program, "b");
    assert_ne!(TaskStatus::Pending, TaskStatus::Running);
}
