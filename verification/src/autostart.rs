//! Starting the toolkit at login.

use vstd::prelude::*;

verus! {

/// File name of the toolkit's desktop entry.
pub const DESKTOP_ENTRY: &'static str = "xero-toolkit.desktop";

/// Where the desktop entry is installed, in order of preference.
pub const DESKTOP_SOURCES: [&'static str; 2] = [
    "/usr/share/applications/xero-toolkit.desktop",
    "/usr/local/share/applications/xero-toolkit.desktop",
];

/// Error when no installed desktop entry is found.
pub const NO_DESKTOP_FILE_MESSAGE: &'static str = "Desktop file not found in system applications";

/// The user's configuration directory (`dirs::config_dir`), as text.
///
/// It depends on the environment, so nothing is stated of it; a path that is
/// not valid Unicode is converted lossily.
#[verifier::external_body]
fn config_dir() -> (r: Option<String>) {
    dirs::config_dir().map(|p| p.to_string_lossy().into_owned())
}

/// `base` extended with a relative component, a separator added when needed
/// (`Path::join` with a relative component).
pub open spec fn path_join(base: Seq<char>, component: Seq<char>) -> Seq<char> {
    if base.len() == 0 || base.last() == '/' {
        base + component
    } else {
        base + seq!['/'] + component
    }
}

fn join_component(base: String, component: &str) -> (r: String)
    ensures
        r@ == path_join(base@, component@),
{
    let v = crate::text::chars_of(base.as_str());
    let mut out = base;
    if v.len() > 0 && v[v.len() - 1] != '/' {
        crate::text::push_char(&mut out, '/');
    }
    out.append(component);
    out
}

/// The autostart entry inside a configuration directory (`~/.config` when
/// the directory is unknown): `<dir>/autostart/xero-toolkit.desktop`.
pub open spec fn autostart_path_spec(config_dir: Option<Seq<char>>) -> Seq<char> {
    let dir = match config_dir {
        Some(d) => d,
        None => "~/.config"@,
    };
    path_join(path_join(dir, "autostart"@), DESKTOP_ENTRY@)
}

/// The autostart entry for a given configuration directory.
pub fn autostart_path_in(config_dir: Option<&str>) -> (r: String)
    ensures
        r@ == autostart_path_spec(match config_dir {
            Some(d) => Some(d@),
            None => None,
        }),
{
    let dir = match config_dir {
        Some(d) => d.to_owned(),
        None => "~/.config".to_owned(),
    };
    let a = join_component(dir, "autostart");
    join_component(a, DESKTOP_ENTRY)
}

/// The autostart directory for a given configuration directory.
pub fn autostart_dir_in(config_dir: Option<&str>) -> (r: String)
    ensures
        r@ == path_join(
            match config_dir {
                Some(d) => d@,
                None => "~/.config"@,
            },
            "autostart"@,
        ),
{
    let dir = match config_dir {
        Some(d) => d.to_owned(),
        None => "~/.config".to_owned(),
    };
    join_component(dir, "autostart")
}

/// The user's autostart entry, in the current configuration directory.
pub fn get_autostart_path() -> (r: String)
    ensures
        exists|d: Option<Seq<char>>| r@ == autostart_path_spec(d),
{
    let dir = config_dir();
    match dir {
        Some(d) => autostart_path_in(Some(d.as_str())),
        None => autostart_path_in(None),
    }
}

/// The installed desktop entry to copy: the first of `DESKTOP_SOURCES` that
/// exists (`exists[i]` for `DESKTOP_SOURCES[i]`).
pub fn desktop_source(exists: &[bool]) -> (r: Option<&'static str>)
    ensures
        match r {
            Some(p) => (exists@.len() > 0 && exists@[0] && p@ == DESKTOP_SOURCES[0]@) || (!(
            exists@.len() > 0 && exists@[0]) && exists@.len() > 1 && exists@[1] && p@
                == DESKTOP_SOURCES[1]@),
            None => !(exists@.len() > 0 && exists@[0]) && !(exists@.len() > 1 && exists@[1]),
        },
{
    if exists.len() > 0 && exists[0] {
        Some(DESKTOP_SOURCES[0])
    } else if exists.len() > 1 && exists[1] {
        Some(DESKTOP_SOURCES[1])
    } else {
        None
    }
}

} // verus!
