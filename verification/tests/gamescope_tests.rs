use xero_toolkit::gamescope::{add_flag_if_not_empty, add_switch_flag, build_gamescope_command, GamescopeSettings};

fn blank() -> GamescopeSettings {
    GamescopeSettings {
        output_width: String::new(),
        output_height: String::new(),
        max_scale: String::new(),
        nested_width: String::new(),
        nested_height: String::new(),
        nested_refresh: String::new(),
        scaler: Some("auto".to_string()),
        filter: Some("linear".to_string()),
        fsr_sharpness: String::new(),
        fullscreen: false,
        grab: false,
        force_grab_cursor: false,
        adaptive_sync: false,
        immediate_flips: false,
        expose_wayland: false,
        force_windows_fullscreen: false,
        backend: Some("auto".to_string()),
        hdr_enabled: false,
        cursor_path: String::new(),
        framerate_limit: String::new(),
        debug_layers: false,
        mangoapp: false,
        realtime: false,
        extra_flags: String::new(),
    }
}

#[test]
fn default_settings_give_bare_command() {
    assert_eq!(build_gamescope_command(&blank()), "gamescope -- %command%");
}

#[test]
fn settings_in_flag_order() {
    let mut s = blank();
    s.output_width = "2560".to_string();
    s.output_height = "1440".to_string();
    s.nested_refresh = "144".to_string();
    s.scaler = Some("fit".to_string());
    s.filter = Some("fsr".to_string());
    s.fsr_sharpness = "5".to_string();
    s.fullscreen = true;
    s.adaptive_sync = true;
    s.backend = Some("sdl".to_string());
    s.hdr_enabled = true;
    s.framerate_limit = "60".to_string();
    s.mangoapp = true;
    s.extra_flags = "--xwayland-count 2".to_string();
    assert_eq!(
        build_gamescope_command(&s),
        "gamescope -W 2560 -H 1440 -r 144 -S fit -F fsr --fsr-sharpness 5 -f --adaptive-sync --backend sdl --hdr-enabled --framerate-limit 60 --mangoapp --xwayland-count 2 -- %command%"
    );
}

#[test]
fn unset_combos_add_nothing() {
    let mut s = blank();
    s.scaler = None;
    s.filter = None;
    s.backend = None;
    s.grab = true;
    s.realtime = true;
    assert_eq!(build_gamescope_command(&s), "gamescope -g --rt -- %command%");
}

#[test]
fn single_flag_helpers() {
    let mut parts = vec!["gamescope".to_string()];
    add_flag_if_not_empty(&mut parts, "-W", "");
    add_flag_if_not_empty(&mut parts, "-W", "1920");
    add_switch_flag(&mut parts, "-f", false);
    add_switch_flag(&mut parts, "-f", true);
    assert_eq!(parts, vec!["gamescope".to_string(), "-W 1920".to_string(), "-f".to_string()]);
}
