use xero_toolkit::aur::{
    detect, executable_found, get, init, is_executable_file, is_executable_in_path, is_executable_mode, is_path,
    HelperSlot, AUR_HELPERS,
};

#[test]
fn test_detect_returns_valid_helper() {
    for probes in [[false, false], [true, false], [false, true], [true, true]] {
        match detect(&probes) {
            Some(h) => assert!(AUR_HELPERS.contains(&h)),
            None => assert_eq!(probes, [false, false]),
        }
    }
}

#[test]
fn detect_prefers_paru() {
    assert_eq!(detect(&[true, true]), Some("paru"));
    assert_eq!(detect(&[false, true]), Some("yay"));
    assert_eq!(detect(&[true, false]), Some("paru"));
    assert_eq!(detect(&[false, false]), None);
    assert_eq!(detect(&[]), None);
}

#[test]
fn init_stores_the_first_helper_only() {
    let mut slot = HelperSlot::new();
    assert_eq!(get(&slot), None);
    assert!(!init(&mut slot, &[false, false]));
    assert_eq!(get(&slot), None);
    assert!(init(&mut slot, &[false, true]));
    assert_eq!(get(&slot), Some("yay"));
    assert!(init(&mut slot, &[true, true]));
    assert_eq!(get(&slot), Some("yay"));
}

#[test]
fn execute_bits() {
    assert!(is_executable_mode(0o755));
    assert!(is_executable_mode(0o100));
    assert!(is_executable_mode(0o010));
    assert!(is_executable_mode(0o001));
    assert!(!is_executable_mode(0o644));
    assert!(!is_executable_mode(0));
}

#[test]
fn path_lookup() {
    assert!(is_path("/usr/bin/paru"));
    assert!(is_path("./yay"));
    assert!(!is_path("paru"));
    assert!(executable_found(&[None, Some(0o100644), Some(0o100755)]));
    assert!(!executable_found(&[None, Some(0o100644)]));
    // A directory with execute bits is not a command.
    assert!(!executable_found(&[Some(0o040755)]));
    assert!(!executable_found(&[]));
    assert!(is_executable_file(0o100711));
    assert!(!is_executable_file(0o100600));
    assert!(!is_executable_file(0o020755));
    // Paths are decided by the file they name, names by `PATH`.
    assert!(is_executable_in_path("/usr/bin/paru", Some(0o100755), &[]));
    assert!(!is_executable_in_path("/usr/bin/paru", Some(0o100644), &[Some(0o100755)]));
    assert!(!is_executable_in_path("./yay", None, &[Some(0o100755)]));
    assert!(is_executable_in_path("yay", None, &[None, Some(0o100755)]));
    assert!(!is_executable_in_path("yay", Some(0o100755), &[]));
}

#[test]
fn helper_is_fixed_by_the_first_detection() {
    let mut slot = HelperSlot::new();
    for probes in [[false, false], [false, false], [true, false], [false, true], [false, false]] {
        init(&mut slot, &probes);
        if probes == [true, false] {
            break;
        }
        assert_eq!(get(&slot), None);
    }
    assert_eq!(get(&slot), Some("paru"));
    for probes in [[false, true], [false, false], [true, true]] {
        init(&mut slot, &probes);
        assert_eq!(get(&slot), Some("paru"));
        assert_eq!(get(&slot), get(&slot));
    }
}
