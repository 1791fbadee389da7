//! System requirements: missing dependencies and the running distribution.

use vstd::prelude::*;
use crate::text::{
    chars_of, chars_view, contains, join, lines, lines_of, lowercase, starts_with,
    starts_with_chars, string_of, strip_prefixes, strip_prefixes_chars, to_lowercase, trim_char,
    trim_char_chars,
};

verus! {

/// Which required tools are missing.
#[derive(Debug, Clone, Copy)]
pub struct DependencyCheckResult {
    /// `flatpak` is not available.
    pub flatpak_missing: bool,
    /// Neither `paru` nor `yay` is available.
    pub aur_helper_missing: bool,
}

/// Names of the missing dependencies, in a fixed order.
pub open spec fn missing_names(r: DependencyCheckResult) -> Seq<Seq<char>> {
    let a: Seq<Seq<char>> = if r.flatpak_missing {
        seq!["flatpak"@]
    } else {
        Seq::empty()
    };
    if r.aur_helper_missing {
        a.push("paru or yay"@)
    } else {
        a
    }
}

/// Text telling how to install flatpak.
pub const FLATPAK_HINT: &'static str = "Install flatpak: <tt>sudo pacman -S flatpak</tt>";

/// Text pointing to the AUR helpers' repositories.
pub const AUR_HELPER_HINT: &'static str = "AUR Helper repositories:\n• Paru: <a href=\"https://github.com/Morganamilo/paru\">https://github.com/Morganamilo/paru</a>\n• Yay: <a href=\"https://github.com/Jguer/yay\">https://github.com/Jguer/yay</a>";

/// The installation hints that apply, in order.
pub open spec fn hints(r: DependencyCheckResult) -> Seq<Seq<char>> {
    let a: Seq<Seq<char>> = if r.flatpak_missing {
        seq![FLATPAK_HINT@]
    } else {
        Seq::empty()
    };
    if r.aur_helper_missing {
        a.push(AUR_HELPER_HINT@)
    } else {
        a
    }
}

/// One bullet of the missing-dependency list.
pub open spec fn bullet(name: Seq<char>) -> Seq<char> {
    "• <b>"@ + name + "</b>"@
}

impl DependencyCheckResult {
    /// Whether anything is missing.
    pub fn has_missing_dependencies(&self) -> (r: bool)
        ensures
            r == (self.flatpak_missing || self.aur_helper_missing),
    {
        self.flatpak_missing || self.aur_helper_missing
    }

    /// Names of the missing dependencies.
    pub fn missing_dependencies(&self) -> (r: Vec<&'static str>)
        ensures
            r@.map_values(|s: &str| s@) == missing_names(*self),
    {
        let mut missing: Vec<&'static str> = Vec::new();
        if self.flatpak_missing {
            missing.push("flatpak");
        }
        if self.aur_helper_missing {
            missing.push("paru or yay");
        }
        assert(missing@.map_values(|s: &str| s@) =~= missing_names(*self));
        missing
    }

    /// The missing dependencies as bullet lines ("• <b>name</b>"), one per line.
    pub fn format_missing_list(&self) -> (r: String)
        ensures
            r@ == join(missing_names(*self).map_values(|n: Seq<char>| bullet(n)), "\n"@),
    {
        let names = self.missing_dependencies();
        let mut lines_out: Vec<String> = Vec::new();
        let mut i: usize = 0;
        while i < names.len()
            invariant
                i <= names@.len(),
                names@.map_values(|s: &str| s@) == missing_names(*self),
                lines_out@.len() == i,
                forall|k: int| 0 <= k < i ==> #[trigger] lines_out@[k]@ == bullet(names@[k]@),
            decreases names@.len() - i,
        {
            let mut line = "• <b>".to_owned();
            line.append(names[i]);
            line.append("</b>");
            lines_out.push(line);
            i = i + 1;
        }
        assert(lines_out@.map_values(|s: String| s@) =~= missing_names(*self).map_values(
            |n: Seq<char>| bullet(n),
        ));
        crate::text::join_strings(&lines_out, "\n")
    }

    /// How to install what is missing, hints separated by a blank line.
    pub fn generate_install_hint(&self) -> (r: String)
        ensures
            r@ == join(hints(*self), "\n\n"@),
    {
        let mut parts: Vec<String> = Vec::new();
        if self.flatpak_missing {
            parts.push(FLATPAK_HINT.to_owned());
        }
        if self.aur_helper_missing {
            parts.push(AUR_HELPER_HINT.to_owned());
        }
        assert(parts@.map_values(|s: String| s@) =~= hints(*self));
        crate::text::join_strings(&parts, "\n\n")
    }
}

/// The value of a `key` line: the key (and any repetition of it) and
/// surrounding double quotes removed.
pub open spec fn field_value(line: Seq<char>, key: Seq<char>) -> Seq<char> {
    trim_char(strip_prefixes(line, key), '"')
}

/// The first non-empty value of a line starting with `key`.
pub open spec fn first_field(ls: Seq<Seq<char>>, key: Seq<char>) -> Option<Seq<char>>
    decreases ls.len(),
{
    if ls.len() == 0 {
        None
    } else if starts_with(ls[0], key) && field_value(ls[0], key).len() > 0 {
        Some(field_value(ls[0], key))
    } else {
        first_field(ls.drop_first(), key)
    }
}

fn first_field_of(ls: &Vec<Vec<char>>, key: &str) -> (r: Option<String>)
    ensures
        match r {
            Some(v) => first_field(chars_view(ls@), key@) == Some(v@),
            None => first_field(chars_view(ls@), key@) is None,
        },
{
    let k = chars_of(key);
    let ghost all = chars_view(ls@);
    let mut i: usize = 0;
    assert(all.skip(0) =~= all);
    while i < ls.len()
        invariant
            i <= ls@.len(),
            all == chars_view(ls@),
            k@ == key@,
            first_field(all, key@) == first_field(all.skip(i as int), key@),
        decreases ls@.len() - i,
    {
        let line = &ls[i];
        assert(all.skip(i as int)[0] == line@);
        assert(all.skip(i as int).drop_first() =~= all.skip(i + 1));
        if starts_with_chars(line.as_slice(), k.as_slice()) {
            let stripped = strip_prefixes_chars(line.as_slice(), k.as_slice());
            let value = trim_char_chars(stripped.as_slice(), '"');
            if value.len() > 0 {
                return Some(string_of(value.as_slice()));
            }
        }
        i = i + 1;
    }
    None
}

/// The distribution name in an os-release file: `NAME`, else `PRETTY_NAME`,
/// else `ID`.
pub open spec fn os_release_name(content: Seq<char>) -> Option<Seq<char>> {
    let ls = lines(content);
    match first_field(ls, "NAME="@) {
        Some(n) => Some(n),
        None => match first_field(ls, "PRETTY_NAME="@) {
            Some(n) => Some(n),
            None => first_field(ls, "ID="@),
        },
    }
}

/// The characters of an optional string.
pub open spec fn opt_string_view(s: Option<String>) -> Option<Seq<char>> {
    match s {
        Some(t) => Some(t@),
        None => None,
    }
}

/// Reads the distribution name from os-release content (see `os_release_name`).
pub fn parse_os_release_name(content: &str) -> (r: Option<String>)
    ensures
        opt_string_view(r) == os_release_name(content@),
{
    let v = chars_of(content);
    let ls = lines_of(v.as_slice());
    match first_field_of(&ls, "NAME=") {
        Some(n) => Some(n),
        None => match first_field_of(&ls, "PRETTY_NAME=") {
            Some(n) => Some(n),
            None => first_field_of(&ls, "ID="),
        },
    }
}

/// The distribution name in an lsb-release file (`DISTRIB_ID`).
pub open spec fn lsb_release_name(content: Seq<char>) -> Option<Seq<char>> {
    first_field(lines(content), "DISTRIB_ID="@)
}

/// Reads the distribution name from lsb-release content.
pub fn parse_lsb_release_name(content: &str) -> (r: Option<String>)
    ensures
        opt_string_view(r) == lsb_release_name(content@),
{
    let v = chars_of(content);
    let ls = lines_of(v.as_slice());
    first_field_of(&ls, "DISTRIB_ID=")
}

/// The characters of an optional string slice.
pub open spec fn opt_str_view(s: Option<&str>) -> Option<Seq<char>> {
    match s {
        Some(t) => Some(t@),
        None => None,
    }
}

/// The distribution name from the files that may be present, in order:
/// `/etc/os-release`, `/usr/lib/os-release`, `/etc/lsb-release`.
pub open spec fn distribution_name_spec(
    etc_os_release: Option<Seq<char>>,
    usr_lib_os_release: Option<Seq<char>>,
    lsb_release: Option<Seq<char>>,
) -> Option<Seq<char>> {
    let first = match etc_os_release {
        Some(c) => os_release_name(c),
        None => None,
    };
    let second = match usr_lib_os_release {
        Some(c) => os_release_name(c),
        None => None,
    };
    if first is Some {
        first
    } else if second is Some {
        second
    } else {
        match lsb_release {
            Some(c) => lsb_release_name(c),
            None => None,
        }
    }
}

/// Determines the distribution name from the contents of the release files
/// that could be read (see `distribution_name_spec`).
pub fn distribution_name(
    etc_os_release: Option<&str>,
    usr_lib_os_release: Option<&str>,
    lsb_release: Option<&str>,
) -> (r: Option<String>)
    ensures
        opt_string_view(r) == distribution_name_spec(
            opt_str_view(etc_os_release),
            opt_str_view(usr_lib_os_release),
            opt_str_view(lsb_release),
        ),
{
    if let Some(c) = etc_os_release {
        if let Some(n) = parse_os_release_name(c) {
            return Some(n);
        }
    }
    if let Some(c) = usr_lib_os_release {
        if let Some(n) = parse_os_release_name(c) {
            return Some(n);
        }
    }
    match lsb_release {
        Some(c) => parse_lsb_release_name(c),
        None => None,
    }
}

/// Whether the distribution name designates XeroLinux (case-insensitively).
pub fn is_xerolinux(distribution: Option<&str>) -> (r: bool)
    ensures
        r == (match distribution {
            Some(name) => contains(lowercase(name@), "xerolinux"@),
            None => false,
        }),
{
    match distribution {
        Some(name) => {
            let lower = to_lowercase(name);
            crate::text::contains_text(lower.as_str(), "xerolinux")
        },
        None => false,
    }
}

/// Name shown when the distribution cannot be determined.
pub fn distribution_label(distribution: Option<&str>) -> (r: String)
    ensures
        r@ == (match distribution {
            Some(name) => name@,
            None => "Unknown"@,
        }),
{
    match distribution {
        Some(name) => name.to_owned(),
        None => "Unknown".to_owned(),
    }
}

} // verus!
