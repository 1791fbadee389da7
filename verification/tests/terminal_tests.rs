use xero_toolkit::terminal::{
    after_exit, confirms, erase_key, failure_text, is_confirmation, plan_text, running_title,
    starting_text, step_at, step_banner, success_text, type_key, TerminalCommand, TerminalStep,
};

#[test]
fn command_line_joins_arguments() {
    let c = TerminalCommand::new("paru", &["-S", "lact"]);
    assert_eq!(c.command, "paru");
    assert_eq!(c.args, vec!["-S".to_string(), "lact".to_string()]);
    assert_eq!(c.command_line(), "paru -S lact");
    assert_eq!(TerminalCommand::new("ls", &[]).command_line(), "ls ");
}

#[test]
fn plan_lists_numbered_commands() {
    let cmds = vec![
        TerminalCommand::new("paru", &["-S", "lact"]),
        TerminalCommand::new("sudo", &["systemctl", "enable", "--now", "lactd"]),
    ];
    assert_eq!(
        plan_text(&cmds, "LACT Setup"),
        "=== LACT Setup ===\r\nThe following commands will be executed:\r\n  1. paru -S lact\r\n  2. sudo systemctl enable --now lactd\r\nDo you want to proceed? [Y/n]: "
    );
    assert_eq!(running_title("LACT Setup"), "Terminal Output - LACT Setup");
    assert_eq!(starting_text("LACT Setup"), "\r\n=== Starting LACT Setup ===\r\n");
}

#[test]
fn banners_and_reports() {
    let c = TerminalCommand::new("paru", &["-S", "lact"]);
    assert_eq!(step_banner(0, 2, &c), "\r\n>>> Executing step 1/2: paru -S lact\r\n");
    assert_eq!(
        failure_text(&c, 1),
        "\r\n========================================\r\n✗ paru -S lact exited with code 1\r\n========================================\r\nThe process encountered an error.\r\nSequence aborted.\r\n"
    );
    assert!(failure_text(&c, -2).contains("exited with code -2"));
    assert_eq!(
        success_text("LACT Setup"),
        "\r\n========================================\r\n✓ LACT Setup completed successfully\r\n========================================\r\n"
    );
}

#[test]
fn confirmation_answers() {
    assert!(confirms("y"));
    assert!(confirms("  YES "));
    assert!(confirms("Y"));
    assert!(confirms(""));
    assert!(confirms("   "));
    assert!(!confirms("n"));
    assert!(!confirms("yep"));
    assert!(is_confirmation("yes"));
    assert!(!is_confirmation("YES"));
}

#[test]
fn answer_editing() {
    let mut answer = String::new();
    assert!(type_key(&mut answer, 'y'));
    assert!(!type_key(&mut answer, '\u{7}'));
    assert!(!type_key(&mut answer, 'é'));
    assert!(type_key(&mut answer, 'e'));
    assert_eq!(answer, "ye");
    assert!(erase_key(&mut answer));
    assert_eq!(answer, "y");
    assert!(erase_key(&mut answer));
    assert!(!erase_key(&mut answer));
    assert_eq!(answer, "");
}

#[test]
fn sequence_stops_at_first_failure() {
    assert_eq!(step_at(0, 2), TerminalStep::Run { index: 0 });
    assert_eq!(step_at(2, 2), TerminalStep::Completed);
    assert_eq!(after_exit(0, 2, 0), TerminalStep::Run { index: 1 });
    assert_eq!(after_exit(1, 2, 0), TerminalStep::Completed);
    assert_eq!(after_exit(0, 2, 127), TerminalStep::Aborted { index: 0, status: 127 });

    // Drive a run of three commands whose second one fails.
    let statuses = [0, 3, 0];
    let mut step = step_at(0, 3);
    while let TerminalStep::Run { index } = step {
        step = after_exit(index, 3, statuses[index]);
    }
    assert_eq!(step, TerminalStep::Aborted { index: 1, status: 3 });
}
