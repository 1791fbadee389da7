use xero_toolkit::config::{
    client, daemon, desktop_file, effect_active, effect_flag_from, parse_effect_flag, scripts, sources,
    system_autostart, systemd, HALLOWEEN_MONTH, SNOW_MONTH,
};

#[test]
fn installation_paths() {
    assert_eq!(sources(), "/opt/xero-toolkit/sources");
    assert_eq!(daemon(), "/opt/xero-toolkit/xero-authd");
    assert_eq!(client(), "/opt/xero-toolkit/xero-auth");
    assert_eq!(scripts(), "/opt/xero-toolkit/sources/scripts");
    assert_eq!(systemd(), "/opt/xero-toolkit/sources/systemd");
    assert_eq!(desktop_file(), "/usr/share/applications/xero-toolkit.desktop");
    assert_eq!(system_autostart(), "/etc/xdg/autostart/xero-toolkit.desktop");
}

#[test]
fn effect_flags() {
    assert_eq!(parse_effect_flag("true"), Some(true));
    assert_eq!(parse_effect_flag("TRUE"), Some(true));
    assert_eq!(parse_effect_flag("Yes"), Some(true));
    assert_eq!(parse_effect_flag("1"), Some(true));
    assert_eq!(parse_effect_flag("No"), Some(false));
    assert_eq!(parse_effect_flag("0"), Some(false));
    assert_eq!(parse_effect_flag("maybe"), None);
    assert_eq!(effect_flag_from("YES", "yes"), Some(true));
    assert_eq!(effect_flag_from("YES", "YES"), None);
}

#[test]
fn effects_follow_the_variable_then_the_month() {
    assert!(effect_active(None, Some(12), SNOW_MONTH));
    assert!(!effect_active(None, Some(11), SNOW_MONTH));
    assert!(!effect_active(Some("false"), Some(12), SNOW_MONTH));
    assert!(effect_active(Some("on"), Some(10), HALLOWEEN_MONTH));
    assert!(effect_active(Some("1"), Some(1), HALLOWEEN_MONTH));
    assert!(!effect_active(None, None, SNOW_MONTH));
}
