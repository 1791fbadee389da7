//! sched-ext CPU schedulers, driven through `scxctl`.

use vstd::prelude::*;
use crate::command::{strings_view, strs_view, Command, CommandSequence, CommandType};
use crate::text::{
    chars_of, chars_view, contains, contains_chars, find_at, find_from, lowercase, replace_all,
    replace_str, split, split_chars, starts_with, starts_with_chars, string_of, sub_chars, to_lowercase,
    trim, trim_char, trim_char_chars, trim_chars, words, words_of,
};

verus! {

/// Scheduler names from the pieces of the `scxctl list` array: each piece
/// trimmed and unquoted, empty ones dropped, prefixed with `scx_`.
pub open spec fn scheduler_names(pieces: Seq<Seq<char>>) -> Seq<Seq<char>>
    decreases pieces.len(),
{
    if pieces.len() == 0 {
        Seq::empty()
    } else {
        let rest = scheduler_names(pieces.drop_last());
        let n = trim_char(trim(pieces.last()), '"');
        if n.len() > 0 {
            rest.push("scx_"@ + n)
        } else {
            rest
        }
    }
}

/// The schedulers listed by `scxctl list`: the comma-separated entries of the
/// first `[...]` after "supported schedulers:".
pub open spec fn scheduler_list(out: Seq<char>) -> Seq<Seq<char>> {
    match find_from(out, "supported schedulers:"@, 0) {
        None => Seq::empty(),
        Some(i) => match find_from(out, "["@, i + "supported schedulers:"@.len()) {
            None => Seq::empty(),
            Some(j) => match find_from(out, "]"@, j) {
                None => Seq::empty(),
                Some(e) => scheduler_names(split(out.subrange(j + 1, e), ',')),
            },
        },
    }
}

fn scheduler_names_of(pieces: &Vec<Vec<char>>) -> (r: Vec<String>)
    ensures
        strings_view(r@) == scheduler_names(chars_view(pieces@)),
{
    let ghost all = chars_view(pieces@);
    let mut out: Vec<String> = Vec::new();
    let mut i: usize = 0;
    assert(all.take(0) =~= Seq::<Seq<char>>::empty());
    assert(strings_view(out@) =~= Seq::<Seq<char>>::empty());
    while i < pieces.len()
        invariant
            i <= pieces@.len(),
            all == chars_view(pieces@),
            strings_view(out@) == scheduler_names(all.take(i as int)),
        decreases pieces@.len() - i,
    {
        assert(all.take(i + 1).drop_last() =~= all.take(i as int));
        assert(all.take(i + 1).last() == pieces@[i as int]@);
        let t = trim_chars(pieces[i].as_slice());
        let n = trim_char_chars(t.as_slice(), '"');
        if n.len() > 0 {
            let mut name = "scx_".to_owned();
            let tail = string_of(n.as_slice());
            name.append(tail.as_str());
            out.push(name);
            assert(strings_view(out@) =~= scheduler_names(all.take(i as int)).push(
                "scx_"@ + n@,
            ));
        }
        i = i + 1;
    }
    assert(all.take(pieces@.len() as int) =~= all);
    out
}

/// Parses the output of `scxctl list` (see `scheduler_list`).
pub fn parse_scheduler_list(out: &str) -> (r: Vec<String>)
    ensures
        strings_view(r@) == scheduler_list(out@),
{
    let v = chars_of(out);
    let header = chars_of("supported schedulers:");
    let open = chars_of("[");
    let close = chars_of("]");
    proof {
        reveal_strlit("supported schedulers:");
        reveal_strlit("[");
        reveal_strlit("]");
    }
    let i = match find_at(v.as_slice(), header.as_slice(), 0) {
        Some(i) => i,
        None => {
            return Vec::new();
        },
    };
    assert(header@.len() == 21);
    let n = v.len();
    assert(i + 21 <= n);
    let j = match find_at(v.as_slice(), open.as_slice(), i + 21) {
        Some(j) => j,
        None => {
            return Vec::new();
        },
    };
    let e = match find_at(v.as_slice(), close.as_slice(), j) {
        Some(e) => e,
        None => {
            return Vec::new();
        },
    };
    assert(v@.subrange(j as int, j + 1)[0] == '[');
    assert(v@.subrange(e as int, e + 1)[0] == ']');
    assert(e > j) by {
        if e == j {
            assert(v@.subrange(j as int, j + 1) == v@.subrange(e as int, e + 1));
        }
    }
    let inner = sub_chars(v.as_slice(), j + 1, e);
    let pieces = split_chars(inner.as_slice(), ',');
    scheduler_names_of(&pieces)
}

/// The mode named in `scxctl get` output: what follows the first " in ", up
/// to the next " in " and then to " mode", trimmed; "N/A" without " in ".
pub open spec fn status_mode(out: Seq<char>) -> Seq<char> {
    match find_from(out, " in "@, 0) {
        None => "N/A"@,
        Some(i) => {
            let rest = out.skip(i + 4);
            let piece = match find_from(rest, " in "@, 0) {
                Some(j) => rest.take(j),
                None => rest,
            };
            let head = match find_from(piece, " mode"@, 0) {
                Some(k) => piece.take(k),
                None => piece,
            };
            trim(head)
        },
    }
}

/// What `scxctl get` output says, given the output, its lowercase form and
/// the lowercase form of its second word: whether a scheduler runs, its name
/// (`scx_` and the lowercased second word) and its mode.
pub open spec fn scheduler_status_with(out: Seq<char>, lower: Seq<char>, lower_name: Seq<char>) -> (
    bool,
    Seq<char>,
    Seq<char>,
) {
    if contains(lower, "not running"@) || out.len() == 0 {
        (false, Seq::empty(), Seq::empty())
    } else if starts_with(lower, "running"@) && words(out).len() >= 2 {
        (true, "scx_"@ + lower_name, status_mode(out))
    } else {
        (false, Seq::empty(), Seq::empty())
    }
}

/// What `scxctl get` output says: whether a scheduler runs, its name
/// (`scx_` and the second word, lowercased) and its mode.
pub open spec fn scheduler_status(out: Seq<char>) -> (bool, Seq<char>, Seq<char>) {
    scheduler_status_with(
        out,
        lowercase(out),
        if words(out).len() >= 2 {
            lowercase(words(out)[1])
        } else {
            Seq::empty()
        },
    )
}

fn status_mode_of(v: &Vec<char>) -> (r: String)
    ensures
        r@ == status_mode(v@),
{
    let sep = chars_of(" in ");
    let mode = chars_of(" mode");
    proof {
        reveal_strlit(" in ");
    }
    assert(sep@.len() == 4);
    match find_at(v.as_slice(), sep.as_slice(), 0) {
        None => "N/A".to_owned(),
        Some(i) => {
            let n = v.len();
            assert(i + 4 <= n);
            let rest = sub_chars(v.as_slice(), i + 4, n);
            assert(rest@ =~= v@.skip(i + 4));
            let piece = match find_at(rest.as_slice(), sep.as_slice(), 0) {
                Some(j) => sub_chars(rest.as_slice(), 0, j),
                None => sub_chars(rest.as_slice(), 0, rest.len()),
            };
            assert(rest@.subrange(0, rest@.len() as int) =~= rest@);
            assert(forall|j: int| 0 <= j <= rest@.len() ==> rest@.subrange(0, j) =~= rest@.take(j));
            let head = match find_at(piece.as_slice(), mode.as_slice(), 0) {
                Some(k) => sub_chars(piece.as_slice(), 0, k),
                None => sub_chars(piece.as_slice(), 0, piece.len()),
            };
            assert(piece@.subrange(0, piece@.len() as int) =~= piece@);
            assert(forall|k: int| 0 <= k <= piece@.len() ==> piece@.subrange(0, k) =~= piece@.take(k));
            let t = trim_chars(head.as_slice());
            string_of(t.as_slice())
        },
    }
}

/// Reads `scxctl get` output, given its lowercase form and that of its
/// second word (see `scheduler_status_with`).
pub fn status_from(out: &str, lower: &str, lower_name: &str) -> (r: (bool, String, String))
    ensures
        (r.0, r.1@, r.2@) == scheduler_status_with(out@, lower@, lower_name@),
{
    let lv = chars_of(lower);
    let v = chars_of(out);
    let not_running = chars_of("not running");
    let running = chars_of("running");
    if contains_chars(lv.as_slice(), not_running.as_slice()) || v.len() == 0 {
        return (false, String::new(), String::new());
    }
    if starts_with_chars(lv.as_slice(), running.as_slice()) {
        let parts = words_of(v.as_slice());
        if parts.len() >= 2 {
            let mut name = "scx_".to_owned();
            name.append(lower_name);
            let mode = status_mode_of(&v);
            return (true, name, mode);
        }
    }
    (false, String::new(), String::new())
}

/// Parses the output of `scxctl get` (see `scheduler_status`).
pub fn parse_status(out: &str) -> (r: (bool, String, String))
    ensures
        (r.0, r.1@, r.2@) == scheduler_status(out@),
{
    let lower = to_lowercase(out);
    let v = chars_of(out);
    let parts = words_of(v.as_slice());
    let lower_name = if parts.len() >= 2 {
        let second = string_of(parts[1].as_slice());
        to_lowercase(second.as_str())
    } else {
        String::new()
    };
    status_from(out, lower.as_str(), lower_name.as_str())
}

/// The scheduler choice, if it names a sched-ext scheduler (`scx_...`).
pub fn selected_scheduler(selected: Option<&str>) -> (r: Option<&str>)
    ensures
        match selected {
            Some(s) => if starts_with(s@, "scx_"@) {
                r == Some(s)
            } else {
                r is None
            },
            None => r is None,
        },
{
    match selected {
        Some(s) => {
            let v = chars_of(s);
            let p = chars_of("scx_");
            if starts_with_chars(v.as_slice(), p.as_slice()) {
                Some(s)
            } else {
                None
            }
        },
        None => None,
    }
}

/// The name `scxctl` expects: the scheduler with every `scx_` removed.
pub fn scheduler_name(scheduler: &str) -> (r: String)
    ensures
        r@ == replace_all(scheduler@, "scx_"@, Seq::empty()),
{
    let r = replace_str(scheduler, "scx_", "");
    proof {
        reveal_strlit("");
    }
    assert(""@ =~= Seq::<char>::empty());
    r
}

/// The mode chosen, `auto` when none is.
pub fn mode_or_auto(mode: Option<&str>) -> (r: String)
    ensures
        r@ == (match mode {
            Some(m) => m@,
            None => "auto"@,
        }),
{
    match mode {
        Some(m) => m.to_owned(),
        None => "auto".to_owned(),
    }
}

/// The command that starts `scheduler` in `mode`, or switches to it when a
/// scheduler is active already, with the task runner's title.
pub fn scheduler_command(scheduler: &str, mode: &str, active: bool) -> (r: (CommandSequence, &'static str))
    ensures
        r.0.view_commands().len() == 1,
        r.0.view_commands()[0].command_type == CommandType::Normal,
        r.0.view_commands()[0].program@ == "scxctl"@,
        strings_view(r.0.view_commands()[0].args@) == seq![
            if active { "switch"@ } else { "start"@ },
            "--sched"@,
            replace_all(scheduler@, "scx_"@, Seq::empty()),
            "--mode"@,
            mode@,
        ],
        r.0.view_commands()[0].description@ == (if active { "Switch"@ } else { "Start"@ }) + "ing "@
            + scheduler@ + " ("@ + mode@ + " mode)..."@,
        r.1@ == (if active { "Switch Scheduler"@ } else { "Start Scheduler"@ }),
{
    let name = scheduler_name(scheduler);
    let verb: &str = if active {
        "switch"
    } else {
        "start"
    };
    let mut description = if active {
        "Switch".to_owned()
    } else {
        "Start".to_owned()
    };
    description.append("ing ");
    description.append(scheduler);
    description.append(" (");
    description.append(mode);
    description.append(" mode)...");
    let args: [&str; 5] = [verb, "--sched", name.as_str(), "--mode", mode];
    let cmd = Command::builder().normal().program("scxctl").args(args.as_slice()).description(
        description.as_str(),
    ).build();
    assert(strs_view(args@) =~= seq![verb@, "--sched"@, name@, "--mode"@, mode@]);
    let seq = CommandSequence::new().then_run(cmd).build();
    assert(seq.view_commands()[0] == cmd);
    let title: &'static str = if active {
        "Switch Scheduler"
    } else {
        "Start Scheduler"
    };
    (seq, title)
}

/// The systemd unit that starts the scheduler at boot: the template with
/// `@SCHEDULER@`, `@SCHEDULER_NAME@` and `@MODE@` filled in, in that order.
pub fn service_unit(template: &str, scheduler: &str, mode: &str) -> (r: String)
    ensures
        r@ == replace_all(
            replace_all(
                replace_all(template@, "@SCHEDULER@"@, scheduler@),
                "@SCHEDULER_NAME@"@,
                replace_all(scheduler@, "scx_"@, Seq::empty()),
            ),
            "@MODE@"@,
            mode@,
        ),
{
    let name = scheduler_name(scheduler);
    let a = replace_str(template, "@SCHEDULER@", scheduler);
    let b = replace_str(a.as_str(), "@SCHEDULER_NAME@", name.as_str());
    replace_str(b.as_str(), "@MODE@", mode)
}

/// Labels for the active scheduler and its mode; the kernel's default
/// scheduler when none is active.
pub fn status_labels(active: bool, name: &str, mode: &str) -> (r: (String, String))
    ensures
        active ==> r.0@ == name@ && r.1@ == mode@,
        !active ==> r.0@ == "EEVDF (Default)"@ && r.1@ == "N/A"@,
{
    if active {
        (name.to_owned(), mode.to_owned())
    } else {
        ("EEVDF (Default)".to_owned(), "N/A".to_owned())
    }
}

/// The kernel version label, marked when the kernel lacks sched-ext.
pub fn kernel_version_label(version: Option<&str>, supported: bool) -> (r: String)
    ensures
        r@ == (match version {
            Some(v) => v@,
            None => "Unknown"@,
        }) + (if supported { Seq::empty() } else { " (no sched-ext)"@ }),
{
    let mut s = match version {
        Some(v) => v.to_owned(),
        None => "Unknown".to_owned(),
    };
    if !supported {
        s.append(" (no sched-ext)");
    } else {
        assert(s@ + Seq::<char>::empty() =~= s@);
    }
    s
}

/// Whether `systemctl is-enabled` output reports the unit enabled: its
/// lowercased text contains "enabled" (no output counts as not enabled).
pub fn service_enabled(output: Option<&str>) -> (r: bool)
    ensures
        r == (match output {
            Some(o) => contains(lowercase(o@), "enabled"@),
            None => false,
        }),
{
    match output {
        Some(o) => {
            let lower = to_lowercase(o);
            crate::text::contains_text(lower.as_str(), "enabled")
        },
        None => false,
    }
}

} // verus!
