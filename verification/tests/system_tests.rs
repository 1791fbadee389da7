use xero_toolkit::pkexec;
use xero_toolkit::command::{Command, CommandType};
use xero_toolkit::system_check::{
    distribution_label, distribution_name, is_xerolinux, parse_lsb_release_name, parse_os_release_name,
    DependencyCheckResult, FLATPAK_HINT,
};

#[test]
fn missing_dependencies() {
    let none = DependencyCheckResult { flatpak_missing: false, aur_helper_missing: false };
    assert!(!none.has_missing_dependencies());
    assert!(none.missing_dependencies().is_empty());
    assert_eq!(none.format_missing_list(), "");
    let both = DependencyCheckResult { flatpak_missing: true, aur_helper_missing: true };
    assert!(both.has_missing_dependencies());
    assert_eq!(both.missing_dependencies(), vec!["flatpak", "paru or yay"]);
    assert_eq!(both.format_missing_list(), "• <b>flatpak</b>\n• <b>paru or yay</b>");
    let flatpak = DependencyCheckResult { flatpak_missing: true, aur_helper_missing: false };
    assert_eq!(flatpak.generate_install_hint(), FLATPAK_HINT);
    assert!(both.generate_install_hint().starts_with(&format!("{}\n\nAUR Helper repositories:", FLATPAK_HINT)));
}

#[test]
fn release_files() {
    let os = "PRETTY_NAME=\"XeroLinux Rolling\"\nNAME=\"XeroLinux\"\nID=xerolinux\n";
    assert_eq!(parse_os_release_name(os), Some("XeroLinux".to_string()));
    assert_eq!(parse_os_release_name("PRETTY_NAME=\"Arch Linux\"\nID=arch"), Some("Arch Linux".to_string()));
    assert_eq!(parse_os_release_name("ID=arch\n"), Some("arch".to_string()));
    assert_eq!(parse_os_release_name("NAME=\"\"\nID=arch\n"), Some("arch".to_string()));
    assert_eq!(parse_os_release_name("VERSION=1\n"), None);
    assert_eq!(parse_lsb_release_name("DISTRIB_ID=\"XeroLinux\"\nDISTRIB_RELEASE=rolling"), Some("XeroLinux".to_string()));
}

#[test]
fn release_file_priority() {
    assert_eq!(distribution_name(Some("NAME=A"), Some("NAME=B"), Some("DISTRIB_ID=C")), Some("A".to_string()));
    assert_eq!(distribution_name(Some("X=1"), Some("NAME=B"), Some("DISTRIB_ID=C")), Some("B".to_string()));
    assert_eq!(distribution_name(None, None, Some("DISTRIB_ID=C")), Some("C".to_string()));
    assert_eq!(distribution_name(None, None, None), None);
}

#[test]
fn xerolinux_detection() {
    assert!(is_xerolinux(Some("XeroLinux")));
    assert!(is_xerolinux(Some("xerolinux kde")));
    assert!(!is_xerolinux(Some("Arch Linux")));
    assert!(!is_xerolinux(None));
    assert_eq!(distribution_label(None), "Unknown");
    assert_eq!(distribution_label(Some("Arch")), "Arch");
}

#[test]
fn pkexec_resolution_and_output() {
    let p = Command::new(CommandType::Privileged, "pacman", &["-Syy"], "Refresh");
    assert_eq!(pkexec::resolve_command(&p, None), Ok(("pkexec".to_string(), vec!["pacman".to_string(), "-Syy".to_string()])));
    let a = Command::builder().aur().args(&["-S", "x"]).description("X").build();
    assert_eq!(pkexec::resolve_command(&a, Some("yay")).unwrap().1, vec!["--sudo", "pkexec", "-S", "x"].iter().map(|s| s.to_string()).collect::<Vec<_>>());
    assert_eq!(pkexec::format_command_output("Refresh", Some("ok\n"), Some("  ")), "=== Refresh ===\nSTDOUT:\nok\n\n\n");
    assert_eq!(pkexec::format_command_output("Refresh", None, Some("")), "=== Refresh ===\n(No output captured)\n\n");
}
