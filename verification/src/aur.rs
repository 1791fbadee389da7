//! AUR helper selection.
//!
//! The helpers are probed on `PATH` by the caller; this module decides which
//! one is used and keeps the choice made at start-up.

use vstd::prelude::*;
use crate::text::{chars_of, contains};

verus! {

/// Helper names, in order of preference.
pub const AUR_HELPERS: [&'static str; 2] = ["paru", "yay"];

/// The helper chosen when `on_path[i]` tells whether `AUR_HELPERS[i]` is an
/// executable on `PATH`: the first one found, in order of preference.
pub open spec fn detected(on_path: Seq<bool>) -> Option<Seq<char>> {
    if on_path.len() > 0 && on_path[0] {
        Some("paru"@)
    } else if on_path.len() > 1 && on_path[1] {
        Some("yay"@)
    } else {
        None
    }
}

/// Chooses the AUR helper from the probe results (see `detected`).
pub fn detect(on_path: &[bool]) -> (r: Option<&'static str>)
    ensures
        match r {
            Some(h) => detected(on_path@) == Some(h@),
            None => detected(on_path@) is None,
        },
{
    if on_path.len() > 0 && on_path[0] {
        Some("paru")
    } else if on_path.len() > 1 && on_path[1] {
        Some("yay")
    } else {
        None
    }
}

/// The AUR helper chosen once for the whole session.
pub struct HelperSlot {
    helper: Option<String>,
}

impl HelperSlot {
    /// The helper held, if any.
    pub closed spec fn value(&self) -> Option<Seq<char>> {
        match self.helper {
            Some(h) => Some(h@),
            None => None,
        }
    }

    /// A slot that holds no helper yet.
    pub fn new() -> (s: Self)
        ensures
            s.value() is None,
    {
        HelperSlot { helper: None }
    }
}

/// The slot's content after `init` with a detection result: a slot is written
/// at most once.
pub open spec fn after_init(held: Option<Seq<char>>, found: Option<Seq<char>>) -> Option<Seq<char>> {
    if held is Some {
        held
    } else {
        found
    }
}

/// Detects the helper and stores it unless one is stored already. Returns
/// whether a helper was detected.
pub fn init(slot: &mut HelperSlot, on_path: &[bool]) -> (r: bool)
    ensures
        r == (detected(on_path@) is Some),
        final(slot).value() == after_init(old(slot).value(), detected(on_path@)),
{
    match detect(on_path) {
        Some(helper) => {
            if slot.helper.is_none() {
                slot.helper = Some(helper.to_owned());
            }
            true
        },
        None => false,
    }
}

/// The stored helper, if any.
pub fn get(slot: &HelperSlot) -> (r: Option<&str>)
    ensures
        match r {
            Some(h) => slot.value() == Some(h@),
            None => slot.value() is None,
        },
{
    match &slot.helper {
        Some(h) => Some(h.as_str()),
        None => None,
    }
}

/// Once a helper is stored, later `init` calls never change it.
pub proof fn law_init_is_write_once(
    held: Option<Seq<char>>,
    first: Option<Seq<char>>,
    second: Option<Seq<char>>,
)
    ensures
        held is Some ==> after_init(held, first) == held,
        after_init(held, first) is Some ==> after_init(after_init(held, first), second)
            == after_init(held, first),
        held is None ==> after_init(held, first) == first,
{
}

/// The slot's content after `init` was called on a fresh slot once for each
/// of `probes`, in order (each entry the probe results of one call).
pub open spec fn value_after_inits(probes: Seq<Seq<bool>>) -> Option<Seq<char>>
    decreases probes.len(),
{
    if probes.len() == 0 {
        None
    } else {
        after_init(value_after_inits(probes.drop_last()), detected(probes.last()))
    }
}

/// Over any history of `init` calls on a fresh slot, the slot holds nothing
/// until a call detects a helper; from then on it holds that first detected
/// helper, which is `paru` or `yay`.
pub proof fn law_helper_history(probes: Seq<Seq<bool>>)
    ensures
        (value_after_inits(probes) is None) == (forall|i: int|
            0 <= i < probes.len() ==> #[trigger] detected(probes[i]) is None),
        value_after_inits(probes) is Some ==> exists|k: int|
            0 <= k < probes.len() && value_after_inits(probes) == #[trigger] detected(probes[k])
                && forall|j: int| 0 <= j < k ==> #[trigger] detected(probes[j]) is None,
        value_after_inits(probes) is Some ==> (value_after_inits(probes) == Some("paru"@)
            || value_after_inits(probes) == Some("yay"@)),
    decreases probes.len(),
{
    if probes.len() > 0 {
        let init = probes.drop_last();
        let n = probes.len() - 1;
        law_helper_history(init);
        assert forall|i: int| 0 <= i < init.len() implies init[i] == probes[i] by {}
        if value_after_inits(init) is Some {
            let k = choose|k: int|
                0 <= k < init.len() && value_after_inits(init) == #[trigger] detected(init[k])
                    && forall|j: int| 0 <= j < k ==> #[trigger] detected(init[j]) is None;
            assert(detected(probes[k]) == detected(init[k]));
            assert forall|j: int| 0 <= j < k implies #[trigger] detected(probes[j]) is None by {
                assert(detected(init[j]) is None);
            }
        } else {
            if detected(probes[n]) is Some {
                assert forall|j: int| 0 <= j < n implies #[trigger] detected(probes[j]) is None by {
                    assert(detected(init[j]) is None);
                }
            }
            if forall|i: int| 0 <= i < probes.len() ==> #[trigger] detected(probes[i]) is None {
                assert(detected(probes[n]) is None);
            } else {
                let i = choose|i: int| 0 <= i < probes.len() && !(#[trigger] detected(probes[i]) is None);
                if i < n {
                    assert(detected(init[i]) is None);
                }
            }
        }
    }
}

/// Permission bits of a file that can be executed by its owner, its group or
/// anyone else.
pub open spec fn is_executable_mode_spec(mode: u32) -> bool {
    (mode / 64) % 2 == 1 || (mode / 8) % 2 == 1 || mode % 2 == 1
}

/// Whether a file mode grants some execute permission (`mode & 0o111 != 0`).
pub fn is_executable_mode(mode: u32) -> (r: bool)
    ensures
        r == is_executable_mode_spec(mode),
{
    let r = mode & 0o111 != 0;
    assert(r == ((mode / 64) % 2 == 1 || (mode / 8) % 2 == 1 || mode % 2 == 1)) by (bit_vector)
        requires
            r == (mode & 0o111 != 0),
    ;
    r
}

/// File-type bits of a regular file (`S_IFMT` bits equal to `S_IFREG`).
pub open spec fn is_regular_file_mode(mode: u32) -> bool {
    mode & 0o170000u32 == 0o100000u32
}

/// Whether a file mode is that of a regular file with some execute
/// permission.
pub fn is_executable_file(mode: u32) -> (r: bool)
    ensures
        r == (is_regular_file_mode(mode) && is_executable_mode_spec(mode)),
{
    let regular = mode & 0o170000u32 == 0o100000u32;
    regular && is_executable_mode(mode)
}

/// A candidate that exists and is an executable regular file (`mode` is its
/// mode, `None` when there is no such file).
pub open spec fn executable_entry(mode: Option<u32>) -> bool {
    match mode {
        Some(m) => is_regular_file_mode(m) && is_executable_mode_spec(m),
        None => false,
    }
}

/// Whether a command named on `PATH` is found: `modes[i]` is the mode of the
/// candidate in the `i`-th directory of `PATH` (`None` when there is no such
/// file), and some candidate must be an executable regular file.
pub fn executable_found(modes: &[Option<u32>]) -> (r: bool)
    ensures
        r == exists|i: int| 0 <= i < modes@.len() && executable_entry(#[trigger] modes@[i]),
{
    let mut i: usize = 0;
    while i < modes.len()
        invariant
            i <= modes@.len(),
            forall|k: int| 0 <= k < i ==> !executable_entry(#[trigger] modes@[k]),
        decreases modes@.len() - i,
    {
        if let Some(m) = modes[i] {
            if is_executable_file(m) {
                return true;
            }
        }
        i = i + 1;
    }
    false
}

/// Whether a command is given as a path (it holds a `/`) rather than a name
/// looked up on `PATH`.
pub fn is_path(cmd: &str) -> (r: bool)
    ensures
        r == contains(cmd@, seq!['/']),
{
    let v = chars_of(cmd);
    let sep: [char; 1] = ['/'];
    let r = crate::text::contains_chars(v.as_slice(), sep.as_slice());
    assert(sep@ =~= seq!['/']);
    r
}

/// Whether the command `cmd` can be executed. A command holding a `/` is a
/// path: `own_mode` is the mode of that file (`None` when there is none). A
/// bare name is looked up on `PATH`: `path_modes[i]` is the mode of `cmd` in
/// the `i`-th directory of `PATH` (empty when `PATH` is unset). Either way the
/// file must be an executable regular file.
pub fn is_executable_in_path(cmd: &str, own_mode: Option<u32>, path_modes: &[Option<u32>]) -> (r: bool)
    ensures
        r == if contains(cmd@, seq!['/']) {
            executable_entry(own_mode)
        } else {
            exists|i: int| 0 <= i < path_modes@.len() && executable_entry(#[trigger] path_modes@[i])
        },
{
    if is_path(cmd) {
        match own_mode {
            Some(m) => is_executable_file(m),
            None => false,
        }
    } else {
        executable_found(path_modes)
    }
}

} // verus!
