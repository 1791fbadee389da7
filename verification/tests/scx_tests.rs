use xero_toolkit::scx::{
    kernel_version_label, mode_or_auto, parse_scheduler_list, parse_status, scheduler_command,
    scheduler_name, selected_scheduler, service_enabled, service_unit, status_from, status_labels,
};

#[test]
fn scheduler_list() {
    let out = "supported schedulers: [\"bpfland\", \"lavd\", \"rusty\", \"\"]\n";
    assert_eq!(parse_scheduler_list(out), vec!["scx_bpfland".to_string(), "scx_lavd".to_string(), "scx_rusty".to_string()]);
    assert!(parse_scheduler_list("nothing here").is_empty());
}

#[test]
fn status_lines() {
    assert_eq!(parse_status("running Bpfland in Gaming mode"), (true, "scx_bpfland".to_string(), "Gaming".to_string()));
    assert_eq!(parse_status("Running LAVD in auto mode\n"), (true, "scx_lavd".to_string(), "auto".to_string()));
    assert_eq!(parse_status("running rusty"), (true, "scx_rusty".to_string(), "N/A".to_string()));
    assert_eq!(parse_status("no scx scheduler running"), (false, String::new(), String::new()));
    assert_eq!(parse_status("scx_lavd is not running"), (false, String::new(), String::new()));
    assert_eq!(parse_status(""), (false, String::new(), String::new()));
    assert_eq!(status_from("Running LAVD", "running lavd", "lavd"), (true, "scx_lavd".to_string(), "N/A".to_string()));
}

#[test]
fn choices_and_names() {
    assert_eq!(selected_scheduler(Some("scx_lavd")), Some("scx_lavd"));
    assert_eq!(selected_scheduler(Some("EEVDF")), None);
    assert_eq!(selected_scheduler(None), None);
    assert_eq!(scheduler_name("scx_lavd"), "lavd");
    assert_eq!(mode_or_auto(None), "auto");
    assert_eq!(mode_or_auto(Some("gaming")), "gaming");
}

#[test]
fn start_or_switch() {
    let (seq, title) = scheduler_command("scx_lavd", "gaming", false);
    let c = &seq.into_commands()[0];
    assert_eq!(c.program, "scxctl");
    assert_eq!(c.args, vec!["start", "--sched", "lavd", "--mode", "gaming"].iter().map(|s| s.to_string()).collect::<Vec<_>>());
    assert_eq!(c.description, "Starting scx_lavd (gaming mode)...");
    assert_eq!(title, "Start Scheduler");
    let (seq, title) = scheduler_command("scx_rusty", "auto", true);
    let c = &seq.into_commands()[0];
    assert_eq!(c.args[0], "switch");
    assert_eq!(c.description, "Switching scx_rusty (auto mode)...");
    assert_eq!(title, "Switch Scheduler");
}

#[test]
fn unit_and_labels() {
    let t = "ExecStart=/usr/bin/scxctl start --sched @SCHEDULER_NAME@ --mode @MODE@ # @SCHEDULER@";
    assert_eq!(service_unit(t, "scx_lavd", "gaming"), "ExecStart=/usr/bin/scxctl start --sched lavd --mode gaming # scx_lavd");
    assert_eq!(status_labels(true, "scx_lavd", "auto"), ("scx_lavd".to_string(), "auto".to_string()));
    assert_eq!(status_labels(false, "x", "y"), ("EEVDF (Default)".to_string(), "N/A".to_string()));
    assert_eq!(kernel_version_label(Some("6.9.1"), true), "6.9.1");
    assert_eq!(kernel_version_label(None, false), "Unknown (no sched-ext)");
    assert!(service_enabled(Some("Enabled\n")));
    assert!(!service_enabled(Some("masked")));
    assert!(!service_enabled(None));
}
