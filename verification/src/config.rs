//! Application constants and installation paths.

use vstd::prelude::*;
use crate::text::{lowercase, str_is, to_lowercase};

verus! {

/// Application name.
pub const NAME: &'static str = "xero-toolkit";

/// Application identifier.
pub const ID: &'static str = "xyz.xerolinux.xero-toolkit";

/// Narrowest sidebar width.
pub const SIDEBAR_MIN_WIDTH: i32 = 200;

/// Widest sidebar width.
pub const SIDEBAR_MAX_WIDTH: i32 = 400;

/// YouTube channel.
pub const YOUTUBE: &'static str = "https://www.youtube.com/@XeroLinux";

/// Project website.
pub const WEBSITE: &'static str = "https://xerolinux.xyz/";

/// Donation page.
pub const DONATE: &'static str = "https://ko-fi.com/xerolinux";

/// Discord server.
pub const DISCORD: &'static str = "https://discord.xerolinux.xyz/";

/// Directory holding the helper scripts and unit templates.
pub const SOURCES: &'static str = "/opt/xero-toolkit/sources";

/// Authentication daemon binary.
pub const DAEMON: &'static str = "/opt/xero-toolkit/xero-authd";

/// Authentication client binary.
pub const CLIENT: &'static str = "/opt/xero-toolkit/xero-auth";

/// Helper scripts.
pub const SCRIPTS: &'static str = "/opt/xero-toolkit/sources/scripts";

/// systemd unit templates.
pub const SYSTEMD: &'static str = "/opt/xero-toolkit/sources/systemd";

/// Installed desktop entry.
pub const DESKTOP_FILE: &'static str = "/usr/share/applications/xero-toolkit.desktop";

/// System-wide autostart entry.
pub const SYSTEM_AUTOSTART: &'static str = "/etc/xdg/autostart/xero-toolkit.desktop";

/// Environment variable forcing the snow effect on or off.
pub const ENABLE_SNOW: &'static str = "XERO_TOOLKIT_ENABLE_SNOW";

/// Environment variable forcing the Halloween effect on or off.
pub const ENABLE_HALLOWEEN: &'static str = "XERO_TOOLKIT_ENABLE_HALLOWEEN";

/// Path of the authentication daemon.
pub fn daemon() -> (p: String)
    ensures
        p@ == DAEMON@,
{
    DAEMON.to_owned()
}

/// Path of the authentication client.
pub fn client() -> (p: String)
    ensures
        p@ == CLIENT@,
{
    CLIENT.to_owned()
}

/// Path of the sources directory.
pub fn sources() -> (p: String)
    ensures
        p@ == SOURCES@,
{
    SOURCES.to_owned()
}

/// Path of the helper scripts.
pub fn scripts() -> (p: String)
    ensures
        p@ == SCRIPTS@,
{
    SCRIPTS.to_owned()
}

/// Path of the systemd unit templates.
pub fn systemd() -> (p: String)
    ensures
        p@ == SYSTEMD@,
{
    SYSTEMD.to_owned()
}

/// Path of the installed desktop entry.
pub fn desktop_file() -> (p: String)
    ensures
        p@ == DESKTOP_FILE@,
{
    DESKTOP_FILE.to_owned()
}

/// Path of the system-wide autostart entry.
pub fn system_autostart() -> (p: String)
    ensures
        p@ == SYSTEM_AUTOSTART@,
{
    SYSTEM_AUTOSTART.to_owned()
}

/// What the value of an effect variable asks for, given the value and its
/// lowercase form: `true`/`false` exactly, or (in the lowercase form)
/// `1`/`true`/`yes` and `0`/`false`/`no`; anything else asks for nothing.
pub open spec fn effect_flag_with(value: Seq<char>, lower: Seq<char>) -> Option<bool> {
    if value == "true"@ {
        Some(true)
    } else if value == "false"@ {
        Some(false)
    } else if lower == "1"@ || lower == "true"@ || lower == "yes"@ {
        Some(true)
    } else if lower == "0"@ || lower == "false"@ || lower == "no"@ {
        Some(false)
    } else {
        None
    }
}

/// What the value of an effect variable asks for (see `effect_flag_with`).
pub open spec fn effect_flag(value: Seq<char>) -> Option<bool> {
    effect_flag_with(value, lowercase(value))
}

/// Reads an effect variable's value, given it and its lowercase form (see
/// `effect_flag_with`).
pub fn effect_flag_from(value: &str, lower: &str) -> (r: Option<bool>)
    ensures
        r == effect_flag_with(value@, lower@),
{
    if str_is(value, "true") {
        return Some(true);
    }
    if str_is(value, "false") {
        return Some(false);
    }
    if str_is(lower, "1") || str_is(lower, "true") || str_is(lower, "yes") {
        Some(true)
    } else if str_is(lower, "0") || str_is(lower, "false") || str_is(lower, "no") {
        Some(false)
    } else {
        None
    }
}

/// Reads the value of an effect variable (see `effect_flag`).
pub fn parse_effect_flag(value: &str) -> (r: Option<bool>)
    ensures
        r == effect_flag(value@),
{
    let lower = to_lowercase(value);
    effect_flag_from(value, lower.as_str())
}

/// Whether a seasonal effect shows: the variable's value decides when it is
/// set and readable as a flag; otherwise the effect shows during its month.
pub fn effect_active(env_value: Option<&str>, current_month: Option<u32>, effect_month: u32) -> (r:
    bool)
    ensures
        r == (match env_value {
            Some(v) if effect_flag(v@) is Some => effect_flag(v@)->0,
            _ => current_month == Some(effect_month),
        }),
{
    if let Some(v) = env_value {
        if let Some(enabled) = parse_effect_flag(v) {
            return enabled;
        }
    }
    match current_month {
        Some(m) => m == effect_month,
        None => false,
    }
}

/// The month of the snow effect (December).
pub const SNOW_MONTH: u32 = 12;

/// The month of the Halloween effect (October).
pub const HALLOWEEN_MONTH: u32 = 10;

} // verus!
