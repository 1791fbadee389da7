use xero_toolkit::command::CommandType;
use xero_toolkit::kernels::{
    available_kernels, count_label, header_candidates, headers_package, install_kernel_commands,
    installed_kernels, not_installed, remove_kernel_commands, search_confirms_kernel, search_pattern,
};

fn s(v: &[&str]) -> Vec<String> {
    v.iter().map(|x| x.to_string()).collect()
}

#[test]
fn candidates_from_repository_listing() {
    let out = "core linux 6.9.1-1\ncore linux-headers 6.9.1-1 [installed]\nextra linux-zen-headers 6.9.1.zen1-1\ncore-testing linux-headers 6.10rc1-1\ntesting/linux-rc-headers x\ncore linux-api-headers 6.8-1\nchaotic-aur linux-cachyos-headers 6.9-1\n";
    assert_eq!(header_candidates(out), s(&["linux", "linux-zen", "linux", "linux-cachyos"]));
}

#[test]
fn search_confirmation_and_pattern() {
    assert_eq!(search_pattern("linux-zen"), "^linux-zen$");
    assert!(search_confirms_kernel(true, "extra/linux-zen 6.9.1.zen1-1\n", "linux-zen"));
    assert!(!search_confirms_kernel(false, "extra/linux-zen 6.9.1.zen1-1\n", "linux-zen"));
    assert!(!search_confirms_kernel(true, "", "linux-zen"));
    assert!(!search_confirms_kernel(true, "extra/linux 6.9\n", "linux-zen"));
}

#[test]
fn available_are_sorted_and_unique() {
    let cands = s(&["linux-zen", "linux", "linux-lts", "linux", "linux-hardened"]);
    let confirmed = vec![true, true, false, true, true];
    assert_eq!(available_kernels(&cands, &confirmed), s(&["linux", "linux-hardened", "linux-zen"]));
}

#[test]
fn installed_need_package_and_headers() {
    let out = "linux 6.9.1-1\nlinux-headers 6.9.1-1\nlinux-zen 6.9.1-1\nlinux-lts-headers 6.6.1-1\nlinux-api-headers 6.8-1\n\nfirefox 126.0-1\n";
    assert_eq!(installed_kernels(out), s(&["linux"]));
    let out2 = "linux-zen-headers 1\nlinux-zen 1\nlinux-headers 1\nlinux 1\n";
    assert_eq!(installed_kernels(out2), s(&["linux", "linux-zen"]));
}

#[test]
fn available_minus_installed() {
    assert_eq!(not_installed(&s(&["linux", "linux-lts", "linux-zen"]), &s(&["linux"])), s(&["linux-lts", "linux-zen"]));
    assert_eq!(count_label(3, "installed"), "3 installed");
    assert_eq!(headers_package("linux-lts"), "linux-lts-headers");
}

#[test]
fn install_and_remove_commands() {
    let c = &install_kernel_commands("linux-lts").into_commands()[0];
    assert_eq!(c.command_type, CommandType::Aur);
    assert_eq!(c.args, s(&["-S", "--noconfirm", "--needed", "linux-lts", "linux-lts-headers"]));
    assert_eq!(c.description, "Installing linux-lts and linux-lts-headers...");
    let r = &remove_kernel_commands("linux-lts").into_commands()[0];
    assert_eq!(r.args, s(&["-R", "--noconfirm", "linux-lts", "linux-lts-headers"]));
    assert_eq!(r.description, "Removing linux-lts and linux-lts-headers...");
}
