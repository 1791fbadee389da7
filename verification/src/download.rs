//! The Arch ISO download: labels and decisions around the transfer.

use vstd::prelude::*;
use crate::text::{chars_of, contains, contains_chars, split, split_chars, starts_with, starts_with_chars, string_of, sub_chars};

verus! {

/// The version label for an ISO file name `archlinux-<date>-<arch>.iso`:
/// "Version: <date>", or "Latest Version" for other names.
pub open spec fn iso_version_label_spec(iso_name: Seq<char>) -> Seq<char> {
    if starts_with(iso_name, "archlinux-"@) {
        "Version: "@ + split(iso_name.skip(10), '-')[0]
    } else {
        "Latest Version"@
    }
}

/// Reads the version from an ISO file name (see `iso_version_label_spec`).
pub fn iso_version_label(iso_name: &str) -> (r: String)
    ensures
        r@ == iso_version_label_spec(iso_name@),
{
    let v = chars_of(iso_name);
    let p = chars_of("archlinux-");
    proof {
        reveal_strlit("archlinux-");
    }
    if starts_with_chars(v.as_slice(), p.as_slice()) {
        let rest = sub_chars(v.as_slice(), 10, v.len());
        assert(rest@ =~= iso_name@.skip(10));
        let pieces = split_chars(rest.as_slice(), '-');
        assert(crate::text::chars_view(pieces@).len() > 0);
        let mut label = "Version: ".to_owned();
        let first = string_of(pieces[0].as_slice());
        label.append(first.as_str());
        label
    } else {
        "Latest Version".to_owned()
    }
}

/// Where the ISO is saved unless the user picks another place:
/// `<home>/Downloads/<iso>`, with `/tmp` when the home directory is unknown.
pub fn default_download_path(home: Option<&str>, iso_name: &str) -> (r: String)
    ensures
        r@ == (match home {
            Some(h) => h@,
            None => "/tmp"@,
        }) + "/Downloads/"@ + iso_name@,
{
    let mut s = match home {
        Some(h) => h.to_owned(),
        None => "/tmp".to_owned(),
    };
    s.append("/Downloads/");
    s.append(iso_name);
    s
}

/// Whether a transfer is complete: everything announced has arrived.
pub fn download_complete(downloaded: u64, total: u64) -> (r: bool)
    ensures
        r == (total > 0 && downloaded >= total),
{
    downloaded >= total && total > 0
}

/// Bytes still to come (none once everything has arrived).
pub fn remaining_bytes(downloaded: u64, total: u64) -> (r: u64)
    ensures
        r == (if total > downloaded { total - downloaded } else { 0 }),
{
    if total > downloaded {
        total - downloaded
    } else {
        0
    }
}

/// Whether a failed download is reported to the user: not when the user
/// cancelled it.
pub fn report_failure(message: &str) -> (r: bool)
    ensures
        r == !contains(message@, "cancelled"@),
{
    let v = chars_of(message);
    let p = chars_of("cancelled");
    !contains_chars(v.as_slice(), p.as_slice())
}

} // verus!
