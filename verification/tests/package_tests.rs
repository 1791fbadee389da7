use xero_toolkit::package::{is_flatpak_listed, PackageCheck};

fn run_check(package: &str, helper: Option<&str>, answers: &[(&str, bool)]) -> (bool, Vec<String>) {
    let mut check = PackageCheck::new(package, helper);
    let mut asked = Vec::new();
    let mut i = 0;
    while let Some((program, args)) = check.next_query() {
        assert_eq!(args, vec!["-Q".to_string(), package.to_string()]);
        assert_eq!(program, answers[i].0);
        asked.push(program);
        check.record(answers[i].1);
        i += 1;
    }
    (check.is_installed(), asked)
}

#[test]
fn test_is_package_installed_nonexistent() {
    // No program lists a package that does not exist.
    let package = "this-package-definitely-does-not-exist-12345";
    let (installed, _) = run_check(package, Some("paru"), &[("paru", false), ("pacman", false)]);
    assert!(!installed);
    let (installed, _) = run_check(package, None, &[("pacman", false)]);
    assert!(!installed);
}

#[test]
fn helper_answer_ends_the_check() {
    let (installed, asked) = run_check("steam", Some("yay"), &[("yay", true)]);
    assert!(installed);
    assert_eq!(asked, vec!["yay".to_string()]);
}

#[test]
fn pacman_is_asked_after_the_helper() {
    let (installed, asked) = run_check("steam", Some("paru"), &[("paru", false), ("pacman", true)]);
    assert!(installed);
    assert_eq!(asked, vec!["paru".to_string(), "pacman".to_string()]);
}

#[test]
fn flatpak_listing() {
    let out = "com.valvesoftware.Steam\n  io.github.flattool.Warehouse  \r\norg.gnome.Boxes";
    assert!(is_flatpak_listed(true, out, "io.github.flattool.Warehouse"));
    assert!(is_flatpak_listed(true, out, "org.gnome.Boxes"));
    assert!(!is_flatpak_listed(true, out, "io.github.flattool"));
    assert!(!is_flatpak_listed(false, out, "org.gnome.Boxes"));
}
