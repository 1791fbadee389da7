//! The Gamescope launch-option generator.

use vstd::prelude::*;
use crate::text::{join, join_strings, starts_with, ends_with};

verus! {

/// The generator's settings, as the user entered them.
#[derive(Debug, Clone)]
pub struct GamescopeSettings {
    /// Output width (`-W`).
    pub output_width: String,
    /// Output height (`-H`).
    pub output_height: String,
    /// Maximum scale factor (`-m`).
    pub max_scale: String,
    /// Game width (`-w`).
    pub nested_width: String,
    /// Game height (`-h`).
    pub nested_height: String,
    /// Game refresh rate (`-r`).
    pub nested_refresh: String,
    /// Upscaler (`-S`), `auto` meaning none given.
    pub scaler: Option<String>,
    /// Upscaling filter (`-F`), `linear` meaning none given.
    pub filter: Option<String>,
    /// FSR sharpness (`--fsr-sharpness`).
    pub fsr_sharpness: String,
    /// `-f`.
    pub fullscreen: bool,
    /// `-g`.
    pub grab: bool,
    /// `--force-grab-cursor`.
    pub force_grab_cursor: bool,
    /// `--adaptive-sync`.
    pub adaptive_sync: bool,
    /// `--immediate-flips`.
    pub immediate_flips: bool,
    /// `--expose-wayland`.
    pub expose_wayland: bool,
    /// `--force-windows-fullscreen`.
    pub force_windows_fullscreen: bool,
    /// Backend (`--backend`), `auto` meaning none given.
    pub backend: Option<String>,
    /// `--hdr-enabled`.
    pub hdr_enabled: bool,
    /// Cursor image (`--cursor`).
    pub cursor_path: String,
    /// Frame rate limit (`--framerate-limit`).
    pub framerate_limit: String,
    /// `--debug-layers`.
    pub debug_layers: bool,
    /// `--mangoapp`.
    pub mangoapp: bool,
    /// `--rt`.
    pub realtime: bool,
    /// Extra flags, appended verbatim.
    pub extra_flags: String,
}

/// "{flag} {value}" when the value is not empty.
pub open spec fn value_flag(flag: Seq<char>, value: Seq<char>) -> Seq<Seq<char>> {
    if value.len() > 0 {
        seq![flag + " "@ + value]
    } else {
        Seq::empty()
    }
}

/// The flag when the switch is on.
pub open spec fn switch_flag(flag: Seq<char>, on: bool) -> Seq<Seq<char>> {
    if on {
        seq![flag]
    } else {
        Seq::empty()
    }
}

/// "{flag} {choice}" when a choice other than the default is made.
pub open spec fn choice_flag(flag: Seq<char>, choice: Option<String>, default: Seq<char>) -> Seq<
    Seq<char>,
> {
    match choice {
        Some(c) => if c@ != default {
            seq![flag + " "@ + c@]
        } else {
            Seq::empty()
        },
        None => Seq::empty(),
    }
}

/// Resolution and refresh flags.
pub open spec fn resolution_parts(s: GamescopeSettings) -> Seq<Seq<char>> {
    value_flag("-W"@, s.output_width@) + value_flag("-H"@, s.output_height@) + value_flag(
        "-m"@,
        s.max_scale@,
    ) + value_flag("-w"@, s.nested_width@) + value_flag("-h"@, s.nested_height@) + value_flag(
        "-r"@,
        s.nested_refresh@,
    )
}

/// Scaler and filter flags.
pub open spec fn scaler_parts(s: GamescopeSettings) -> Seq<Seq<char>> {
    choice_flag("-S"@, s.scaler, "auto"@) + choice_flag("-F"@, s.filter, "linear"@) + value_flag(
        "--fsr-sharpness"@,
        s.fsr_sharpness@,
    )
}

/// General gameplay flags.
pub open spec fn general_parts(s: GamescopeSettings) -> Seq<Seq<char>> {
    switch_flag("-f"@, s.fullscreen) + switch_flag("-g"@, s.grab) + switch_flag(
        "--force-grab-cursor"@,
        s.force_grab_cursor,
    ) + switch_flag("--adaptive-sync"@, s.adaptive_sync) + switch_flag(
        "--immediate-flips"@,
        s.immediate_flips,
    ) + switch_flag("--expose-wayland"@, s.expose_wayland) + switch_flag(
        "--force-windows-fullscreen"@,
        s.force_windows_fullscreen,
    )
}

/// Backend and rendering flags.
pub open spec fn backend_parts(s: GamescopeSettings) -> Seq<Seq<char>> {
    choice_flag("--backend"@, s.backend, "auto"@) + switch_flag("--hdr-enabled"@, s.hdr_enabled)
        + value_flag("--cursor"@, s.cursor_path@) + value_flag(
        "--framerate-limit"@,
        s.framerate_limit@,
    )
}

/// Debug and performance flags.
pub open spec fn debug_parts(s: GamescopeSettings) -> Seq<Seq<char>> {
    switch_flag("--debug-layers"@, s.debug_layers) + switch_flag("--mangoapp"@, s.mangoapp)
        + switch_flag("--rt"@, s.realtime)
}

/// The user's extra flags, when any.
pub open spec fn extra_parts(s: GamescopeSettings) -> Seq<Seq<char>> {
    if s.extra_flags@.len() > 0 {
        seq![s.extra_flags@]
    } else {
        Seq::empty()
    }
}

/// All flags, in order.
pub open spec fn gamescope_flags(s: GamescopeSettings) -> Seq<Seq<char>> {
    resolution_parts(s) + scaler_parts(s) + general_parts(s) + backend_parts(s) + debug_parts(s)
        + extra_parts(s)
}

/// The words of the launch option: `gamescope`, the flags, `--` and
/// `%command%`.
pub open spec fn gamescope_parts(s: GamescopeSettings) -> Seq<Seq<char>> {
    seq!["gamescope"@] + gamescope_flags(s) + seq!["--"@, "%command%"@]
}

/// The characters of each string in `v`.
pub open spec fn parts_view(v: Seq<String>) -> Seq<Seq<char>> {
    v.map_values(|p: String| p@)
}

/// Adds "{flag} {value}" when the value is not empty.
pub fn add_flag_if_not_empty(parts: &mut Vec<String>, flag: &str, value: &str)
    ensures
        parts_view(final(parts)@) == parts_view(old(parts)@) + value_flag(flag@, value@),
{
    if !value.is_empty() {
        let mut p = flag.to_owned();
        p.append(" ");
        p.append(value);
        parts.push(p);
        assert(parts_view(parts@) =~= parts_view(old(parts)@) + value_flag(flag@, value@));
    } else {
        assert(parts_view(parts@) =~= parts_view(old(parts)@) + value_flag(flag@, value@));
    }
}

/// Adds the flag when the switch is on.
pub fn add_switch_flag(parts: &mut Vec<String>, flag: &str, on: bool)
    ensures
        parts_view(final(parts)@) == parts_view(old(parts)@) + switch_flag(flag@, on),
{
    if on {
        parts.push(flag.to_owned());
    }
    assert(parts_view(parts@) =~= parts_view(old(parts)@) + switch_flag(flag@, on));
}

fn add_choice_flag(parts: &mut Vec<String>, flag: &str, choice: &Option<String>, default: &str)
    ensures
        parts_view(final(parts)@) == parts_view(old(parts)@) + choice_flag(flag@, *choice, default@),
{
    match choice {
        Some(c) => {
            if !crate::text::str_is(c.as_str(), default) {
                let mut p = flag.to_owned();
                p.append(" ");
                p.append(c.as_str());
                parts.push(p);
            }
        },
        None => {},
    }
    assert(parts_view(parts@) =~= parts_view(old(parts)@) + choice_flag(flag@, *choice, default@));
}

/// Adds the resolution and refresh flags.
pub fn add_resolution_flags(parts: &mut Vec<String>, s: &GamescopeSettings)
    ensures
        parts_view(final(parts)@) == parts_view(old(parts)@) + resolution_parts(*s),
{
    let ghost p0 = parts_view(parts@);
    add_flag_if_not_empty(parts, "-W", s.output_width.as_str());
    add_flag_if_not_empty(parts, "-H", s.output_height.as_str());
    let ghost a = value_flag("-W"@, s.output_width@) + value_flag("-H"@, s.output_height@);
    assert(parts_view(parts@) =~= p0 + a);
    add_flag_if_not_empty(parts, "-m", s.max_scale.as_str());
    let ghost b = a + value_flag("-m"@, s.max_scale@);
    proof {
        lemma_add_assoc(p0, a, value_flag("-m"@, s.max_scale@));
    }
    add_flag_if_not_empty(parts, "-w", s.nested_width.as_str());
    let ghost c = b + value_flag("-w"@, s.nested_width@);
    proof {
        lemma_add_assoc(p0, b, value_flag("-w"@, s.nested_width@));
    }
    add_flag_if_not_empty(parts, "-h", s.nested_height.as_str());
    let ghost d = c + value_flag("-h"@, s.nested_height@);
    proof {
        lemma_add_assoc(p0, c, value_flag("-h"@, s.nested_height@));
    }
    add_flag_if_not_empty(parts, "-r", s.nested_refresh.as_str());
    let ghost e = d + value_flag("-r"@, s.nested_refresh@);
    proof {
        lemma_add_assoc(p0, d, value_flag("-r"@, s.nested_refresh@));
    }
}

/// Adds the scaler and filter flags.
pub fn add_scaler_flags(parts: &mut Vec<String>, s: &GamescopeSettings)
    ensures
        parts_view(final(parts)@) == parts_view(old(parts)@) + scaler_parts(*s),
{
    add_choice_flag(parts, "-S", &s.scaler, "auto");
    add_choice_flag(parts, "-F", &s.filter, "linear");
    add_flag_if_not_empty(parts, "--fsr-sharpness", s.fsr_sharpness.as_str());
    assert(parts_view(parts@) =~= parts_view(old(parts)@) + scaler_parts(*s));
}

/// Adds the general gameplay flags.
#[verifier::rlimit(100)]
#[verifier::spinoff_prover]
pub fn add_general_flags(parts: &mut Vec<String>, s: &GamescopeSettings)
    ensures
        parts_view(final(parts)@) == parts_view(old(parts)@) + general_parts(*s),
{
    let ghost p0 = parts_view(parts@);
    add_switch_flag(parts, "-f", s.fullscreen);
    add_switch_flag(parts, "-g", s.grab);
    let ghost a = switch_flag("-f"@, s.fullscreen) + switch_flag("-g"@, s.grab);
    assert(parts_view(parts@) =~= p0 + a);
    add_switch_flag(parts, "--force-grab-cursor", s.force_grab_cursor);
    let ghost b = a + switch_flag("--force-grab-cursor"@, s.force_grab_cursor);
    proof {
        lemma_add_assoc(p0, a, switch_flag("--force-grab-cursor"@, s.force_grab_cursor));
    }
    add_switch_flag(parts, "--adaptive-sync", s.adaptive_sync);
    let ghost c = b + switch_flag("--adaptive-sync"@, s.adaptive_sync);
    proof {
        lemma_add_assoc(p0, b, switch_flag("--adaptive-sync"@, s.adaptive_sync));
    }
    add_switch_flag(parts, "--immediate-flips", s.immediate_flips);
    let ghost d = c + switch_flag("--immediate-flips"@, s.immediate_flips);
    proof {
        lemma_add_assoc(p0, c, switch_flag("--immediate-flips"@, s.immediate_flips));
    }
    add_switch_flag(parts, "--expose-wayland", s.expose_wayland);
    let ghost e = d + switch_flag("--expose-wayland"@, s.expose_wayland);
    proof {
        lemma_add_assoc(p0, d, switch_flag("--expose-wayland"@, s.expose_wayland));
    }
    add_switch_flag(parts, "--force-windows-fullscreen", s.force_windows_fullscreen);
    let ghost f = e + switch_flag("--force-windows-fullscreen"@, s.force_windows_fullscreen);
    proof {
        lemma_add_assoc(p0, e, switch_flag("--force-windows-fullscreen"@, s.force_windows_fullscreen));
    }
}

/// Adds the backend and rendering flags.
pub fn add_backend_flags(parts: &mut Vec<String>, s: &GamescopeSettings)
    ensures
        parts_view(final(parts)@) == parts_view(old(parts)@) + backend_parts(*s),
{
    add_choice_flag(parts, "--backend", &s.backend, "auto");
    add_switch_flag(parts, "--hdr-enabled", s.hdr_enabled);
    add_flag_if_not_empty(parts, "--cursor", s.cursor_path.as_str());
    add_flag_if_not_empty(parts, "--framerate-limit", s.framerate_limit.as_str());
    assert(parts_view(parts@) =~= parts_view(old(parts)@) + backend_parts(*s));
}

/// Adds the debug and performance flags.
pub fn add_debug_flags(parts: &mut Vec<String>, s: &GamescopeSettings)
    ensures
        parts_view(final(parts)@) == parts_view(old(parts)@) + debug_parts(*s),
{
    add_switch_flag(parts, "--debug-layers", s.debug_layers);
    add_switch_flag(parts, "--mangoapp", s.mangoapp);
    add_switch_flag(parts, "--rt", s.realtime);
    assert(parts_view(parts@) =~= parts_view(old(parts)@) + debug_parts(*s));
}

/// Adds the user's extra flags, when any.
pub fn add_extra_flags(parts: &mut Vec<String>, s: &GamescopeSettings)
    ensures
        parts_view(final(parts)@) == parts_view(old(parts)@) + extra_parts(*s),
{
    if !s.extra_flags.as_str().is_empty() {
        parts.push(s.extra_flags.clone());
    }
    assert(parts_view(parts@) =~= parts_view(old(parts)@) + extra_parts(*s));
}

/// Concatenation is associative.
proof fn lemma_add_assoc<A>(a: Seq<A>, b: Seq<A>, c: Seq<A>)
    ensures
        (a + b) + c == a + (b + c),
{
    assert((a + b) + c =~= a + (b + c));
}

/// The launch option: the words of `gamescope_parts` joined by spaces.
pub fn build_gamescope_command(s: &GamescopeSettings) -> (r: String)
    ensures
        r@ == join(gamescope_parts(*s), " "@),
{
    let mut parts: Vec<String> = Vec::new();
    parts.push("gamescope".to_owned());
    let ghost g = seq!["gamescope"@];
    assert(parts_view(parts@) =~= g);
    add_resolution_flags(&mut parts, s);
    let ghost a1 = resolution_parts(*s);
    add_scaler_flags(&mut parts, s);
    let ghost a2 = a1 + scaler_parts(*s);
    proof {
        lemma_add_assoc(g, a1, scaler_parts(*s));
    }
    add_general_flags(&mut parts, s);
    let ghost a3 = a2 + general_parts(*s);
    proof {
        lemma_add_assoc(g, a2, general_parts(*s));
    }
    add_backend_flags(&mut parts, s);
    let ghost a4 = a3 + backend_parts(*s);
    proof {
        lemma_add_assoc(g, a3, backend_parts(*s));
    }
    add_debug_flags(&mut parts, s);
    let ghost a5 = a4 + debug_parts(*s);
    proof {
        lemma_add_assoc(g, a4, debug_parts(*s));
    }
    add_extra_flags(&mut parts, s);
    let ghost a6 = a5 + extra_parts(*s);
    proof {
        lemma_add_assoc(g, a5, extra_parts(*s));
    }
    assert(parts_view(parts@) == g + gamescope_flags(*s));
    let ghost before = parts_view(parts@);
    parts.push("--".to_owned());
    parts.push("%command%".to_owned());
    assert(parts_view(parts@) =~= before + seq!["--"@, "%command%"@]);
    join_strings(&parts, " ")
}

/// A joined list starts with its first part.
proof fn lemma_join_starts(parts: Seq<Seq<char>>, sep: Seq<char>)
    requires
        parts.len() > 0,
    ensures
        starts_with(join(parts, sep), parts[0]),
    decreases parts.len(),
{
    if parts.len() == 1 {
        assert(parts[0].take(parts[0].len() as int) =~= parts[0]);
    } else {
        lemma_join_starts(parts.drop_last(), sep);
        let a = join(parts.drop_last(), sep);
        assert(parts.drop_last()[0] == parts[0]);
        assert(((a + sep) + parts.last()).take(parts[0].len() as int) =~= a.take(
            parts[0].len() as int,
        ));
    }
}

/// A launch option made of `gamescope`, any flags, `--` and `%command%` is
/// framed by them.
proof fn lemma_frame(flags: Seq<Seq<char>>)
    ensures
        starts_with(join(seq!["gamescope"@] + flags + seq!["--"@, "%command%"@], " "@), "gamescope"@),
        ends_with(join(seq!["gamescope"@] + flags + seq!["--"@, "%command%"@], " "@), " -- %command%"@),
{
    let parts = seq!["gamescope"@] + flags + seq!["--"@, "%command%"@];
    lemma_join_starts(parts, " "@);
    assert(parts[0] == "gamescope"@);
    assert(parts.last() == "%command%"@);
    assert(parts.drop_last().last() == "--"@);
    assert(parts.drop_last().drop_last().len() > 0);
    let inner = join(parts.drop_last().drop_last(), " "@);
    assert(join(parts, " "@) == join(parts.drop_last(), " "@) + " "@ + "%command%"@);
    assert(join(parts.drop_last(), " "@) == inner + " "@ + "--"@);
    reveal_strlit(" -- %command%");
    reveal_strlit(" ");
    reveal_strlit("--");
    reveal_strlit("%command%");
    let whole = inner + " "@ + "--"@ + " "@ + "%command%"@;
    assert(whole.skip(whole.len() - 13) =~= " -- %command%"@);
}

/// Every generated launch option starts with `gamescope` and ends with
/// ` -- %command%`, whatever the settings.
pub proof fn law_command_frame(s: GamescopeSettings)
    ensures
        starts_with(join(gamescope_parts(s), " "@), "gamescope"@),
        ends_with(join(gamescope_parts(s), " "@), " -- %command%"@),
{
    lemma_frame(gamescope_flags(s));
}

/// Anything in `a` or in `b` is in `a + b`.
proof fn lemma_contains_concat<A>(a: Seq<A>, b: Seq<A>, x: A)
    ensures
        a.contains(x) ==> (a + b).contains(x),
        b.contains(x) ==> (a + b).contains(x),
{
    if a.contains(x) {
        let i = choose|i: int| 0 <= i < a.len() && a[i] == x;
        assert((a + b)[i] == x);
    }
    if b.contains(x) {
        let i = choose|i: int| 0 <= i < b.len() && b[i] == x;
        assert((a + b)[a.len() + i] == x);
    }
}

/// A word of the resolution flags is a word of the launch option.
proof fn lemma_resolution_in_parts(s: GamescopeSettings, x: Seq<char>)
    requires
        resolution_parts(s).contains(x),
    ensures
        gamescope_parts(s).contains(x),
{
    let r = resolution_parts(s);
    let f1 = r + scaler_parts(s);
    let f2 = f1 + general_parts(s);
    let f3 = f2 + backend_parts(s);
    let f4 = f3 + debug_parts(s);
    let f5 = f4 + extra_parts(s);
    lemma_contains_concat(r, scaler_parts(s), x);
    lemma_contains_concat(f1, general_parts(s), x);
    lemma_contains_concat(f2, backend_parts(s), x);
    lemma_contains_concat(f3, debug_parts(s), x);
    lemma_contains_concat(f4, extra_parts(s), x);
    assert(gamescope_flags(s) == f5);
    lemma_contains_concat(seq!["gamescope"@], f5, x);
    lemma_contains_concat(seq!["gamescope"@] + f5, seq!["--"@, "%command%"@], x);
}

/// Each resolution flag carries the value of its own setting: whenever a
/// setting is filled in, the launch option has the word "<flag> <value>"
/// (`-W` output width, `-H` output height, `-m` maximum scale, `-w` game
/// width, `-h` game height, `-r` game refresh rate).
pub proof fn law_resolution_flags_carry_their_fields(s: GamescopeSettings)
    ensures
        s.output_width@.len() > 0 ==> gamescope_parts(s).contains("-W"@ + " "@ + s.output_width@),
        s.output_height@.len() > 0 ==> gamescope_parts(s).contains("-H"@ + " "@ + s.output_height@),
        s.max_scale@.len() > 0 ==> gamescope_parts(s).contains("-m"@ + " "@ + s.max_scale@),
        s.nested_width@.len() > 0 ==> gamescope_parts(s).contains("-w"@ + " "@ + s.nested_width@),
        s.nested_height@.len() > 0 ==> gamescope_parts(s).contains("-h"@ + " "@ + s.nested_height@),
        s.nested_refresh@.len() > 0 ==> gamescope_parts(s).contains("-r"@ + " "@ + s.nested_refresh@),
{
    let vw = value_flag("-W"@, s.output_width@);
    let vh = value_flag("-H"@, s.output_height@);
    let vm = value_flag("-m"@, s.max_scale@);
    let nw = value_flag("-w"@, s.nested_width@);
    let nh = value_flag("-h"@, s.nested_height@);
    let nr = value_flag("-r"@, s.nested_refresh@);
    let a = vw + vh;
    let b = a + vm;
    let c = b + nw;
    let d = c + nh;
    assert(resolution_parts(s) == d + nr);
    let words = seq![
        ("-W"@ + " "@ + s.output_width@, s.output_width@.len() > 0),
        ("-H"@ + " "@ + s.output_height@, s.output_height@.len() > 0),
        ("-m"@ + " "@ + s.max_scale@, s.max_scale@.len() > 0),
        ("-w"@ + " "@ + s.nested_width@, s.nested_width@.len() > 0),
        ("-h"@ + " "@ + s.nested_height@, s.nested_height@.len() > 0),
        ("-r"@ + " "@ + s.nested_refresh@, s.nested_refresh@.len() > 0),
    ];
    if s.output_width@.len() > 0 {
        let x = words[0].0;
        assert(vw[0] == x);
        lemma_contains_concat(vw, vh, x);
        lemma_contains_concat(a, vm, x);
        lemma_contains_concat(b, nw, x);
        lemma_contains_concat(c, nh, x);
        lemma_contains_concat(d, nr, x);
        lemma_resolution_in_parts(s, x);
    }
    if s.output_height@.len() > 0 {
        let x = words[1].0;
        assert(vh[0] == x);
        lemma_contains_concat(vw, vh, x);
        lemma_contains_concat(a, vm, x);
        lemma_contains_concat(b, nw, x);
        lemma_contains_concat(c, nh, x);
        lemma_contains_concat(d, nr, x);
        lemma_resolution_in_parts(s, x);
    }
    if s.max_scale@.len() > 0 {
        let x = words[2].0;
        assert(vm[0] == x);
        lemma_contains_concat(a, vm, x);
        lemma_contains_concat(b, nw, x);
        lemma_contains_concat(c, nh, x);
        lemma_contains_concat(d, nr, x);
        lemma_resolution_in_parts(s, x);
    }
    if s.nested_width@.len() > 0 {
        let x = words[3].0;
        assert(nw[0] == x);
        lemma_contains_concat(b, nw, x);
        lemma_contains_concat(c, nh, x);
        lemma_contains_concat(d, nr, x);
        lemma_resolution_in_parts(s, x);
    }
    if s.nested_height@.len() > 0 {
        let x = words[4].0;
        assert(nh[0] == x);
        lemma_contains_concat(c, nh, x);
        lemma_contains_concat(d, nr, x);
        lemma_resolution_in_parts(s, x);
    }
    if s.nested_refresh@.len() > 0 {
        let x = words[5].0;
        assert(nr[0] == x);
        lemma_contains_concat(d, nr, x);
        lemma_resolution_in_parts(s, x);
    }
}

} // verus!
