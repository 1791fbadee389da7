use xero_toolkit::autostart::{autostart_dir_in, autostart_path_in, desktop_source, DESKTOP_SOURCES};
use xero_toolkit::daemon::{daemon_launch, get_xero_auth_path, poll_daemon, DaemonWait, START_TIMEOUT_MS};
use xero_toolkit::download::{default_download_path, download_complete, iso_version_label, remaining_bytes, report_failure};
use xero_toolkit::resources::OptimizationStats;
use xero_toolkit::navigation::{find_page, load_failure_message, page, LazyPageLoader, PAGE_COUNT};

#[test]
fn autostart_paths() {
    assert_eq!(autostart_path_in(Some("/home/alice/.config")), "/home/alice/.config/autostart/xero-toolkit.desktop");
    assert_eq!(autostart_path_in(Some("/cfg/")), "/cfg/autostart/xero-toolkit.desktop");
    assert_eq!(autostart_path_in(None), "~/.config/autostart/xero-toolkit.desktop");
    assert_eq!(autostart_dir_in(Some("/c")), "/c/autostart");
    assert_eq!(desktop_source(&[false, true]), Some(DESKTOP_SOURCES[1]));
    assert_eq!(desktop_source(&[true, true]), Some(DESKTOP_SOURCES[0]));
    assert_eq!(desktop_source(&[false, false]), None);
}

#[test]
fn daemon_start_and_wait() {
    assert_eq!(get_xero_auth_path(), "/opt/xero-toolkit/xero-auth");
    let (program, args) = daemon_launch(1000, 4242);
    assert_eq!(program, "pkexec");
    assert_eq!(args, vec!["/opt/xero-toolkit/xero-authd", "--uid", "1000", "--parent-pid", "4242"].iter().map(|s| s.to_string()).collect::<Vec<_>>());
    assert_eq!(poll_daemon(true, true, 0, START_TIMEOUT_MS), DaemonWait::Ready);
    assert_eq!(poll_daemon(false, true, 0, START_TIMEOUT_MS), DaemonWait::PromptExited);
    assert_eq!(poll_daemon(false, false, START_TIMEOUT_MS, START_TIMEOUT_MS), DaemonWait::TimedOut);
    assert_eq!(poll_daemon(false, false, 50, START_TIMEOUT_MS), DaemonWait::Wait);
}

#[test]
fn download_labels() {
    assert_eq!(iso_version_label("archlinux-2024.06.01-x86_64.iso"), "Version: 2024.06.01");
    assert_eq!(iso_version_label("other.iso"), "Latest Version");
    assert_eq!(default_download_path(Some("/home/a"), "x.iso"), "/home/a/Downloads/x.iso");
    assert_eq!(default_download_path(None, "x.iso"), "/tmp/Downloads/x.iso");
    assert!(download_complete(10, 10));
    assert!(!download_complete(0, 0));
    assert!(!download_complete(5, 10));
    assert_eq!(remaining_bytes(3, 10), 7);
    assert_eq!(remaining_bytes(12, 10), 0);
    assert!(report_failure("connection reset"));
    assert!(!report_failure("Download cancelled"));
}

#[test]
fn pages_and_loading() {
    assert_eq!(PAGE_COUNT, 10);
    let p = page(0);
    assert_eq!(p.id, "main_page");
    assert_eq!(p.ui_resource, "/xyz/xerolinux/xero-toolkit/ui/tabs/main_page.ui");
    assert_eq!(page(9).title, "Biometrics");
    assert_eq!(find_page("gamescope"), Some(4));
    assert_eq!(find_page("nope"), None);
    let mut l = LazyPageLoader::new();
    assert!(l.needs_loading("drivers"));
    l.mark_loading("drivers");
    assert!(l.is_loading("drivers"));
    assert!(!l.needs_loading("drivers"));
    l.finish_loading("drivers", true);
    assert!(l.is_loaded("drivers"));
    assert!(!l.is_loading("drivers"));
    assert!(!l.needs_loading("drivers"));
    l.mark_loading("gamescope");
    l.finish_loading("gamescope", false);
    assert!(l.needs_loading("gamescope"));
    assert_eq!(load_failure_message("Drivers", "boom"), "Failed to load Drivers: boom");
}

#[test]
fn optimization_percent() {
    let mut stats = OptimizationStats::default();
    assert_eq!(stats.reduction_percent(), 0);
    stats.add(1000, 750);
    stats.add(500, 500);
    assert_eq!(stats.count, 2);
    assert_eq!(stats.original, 1500);
    assert_eq!(stats.optimized, 1250);
    assert_eq!(stats.reduction_percent(), 16);
    let grown = OptimizationStats { count: 1, original: 300, optimized: 301 };
    assert_eq!(grown.reduction_percent(), 0);
    let grown_more = OptimizationStats { count: 1, original: 300, optimized: 304 };
    assert_eq!(grown_more.reduction_percent(), -1);
}
