//! System servicing tasks whose steps depend on the machine or the user's
//! choices.

use vstd::prelude::*;
use crate::command::{
    aur_command, aur_spec, command_spec, privileged_command, run_spec, sequence_spec, strings_view,
    strs_view, step_if, CommandSequence, CommandSpec, CommandType,
};
use crate::recipes::{has_id, then_if};
use crate::text::{str_is, trim, trim_str};

verus! {

/// Reported when the virtualization environment cannot be detected.
pub const DETECTION_FAILED_MESSAGE: &'static str = "Failed to detect virtualization environment.";

/// Reported when the machine is not a supported virtual machine.
pub const UNSUPPORTED_VIRT_MESSAGE: &'static str = "Unsupported or no virtualization detected.";

/// The guest utilities for what `systemd-detect-virt` printed (`None` when it
/// did not succeed): VirtualBox's for `oracle`, the QEMU agents for `kvm`.
pub open spec fn vm_guest_spec(detected: Option<Seq<char>>) -> Result<Seq<CommandSpec>, Seq<char>> {
    match detected {
        None => Err(DETECTION_FAILED_MESSAGE@),
        Some(out) => if trim(out) == "oracle"@ {
            Ok(
                seq![
                    aur_spec(
                        seq!["-S"@, "--needed"@, "--noconfirm"@, "virtualbox-guest-utils"@],
                        "Installing VirtualBox guest utilities..."@,
                    ),
                ],
            )
        } else if trim(out) == "kvm"@ {
            Ok(
                seq![
                    aur_spec(
                        seq!["-S"@, "--needed"@, "--noconfirm"@, "qemu-guest-agent"@, "spice-vdagent"@],
                        "Installing KVM/QEMU guest agents..."@,
                    ),
                ],
            )
        } else {
            Err(UNSUPPORTED_VIRT_MESSAGE@)
        },
    }
}

/// The commands installing the guest utilities (see `vm_guest_spec`).
pub fn vm_guest_commands(detected: Option<&str>) -> (r: Result<CommandSequence, &'static str>)
    ensures
        match r {
            Ok(s) => vm_guest_spec(match detected {
                Some(d) => Some(d@),
                None => None,
            }) == Ok::<Seq<CommandSpec>, Seq<char>>(sequence_spec(s)),
            Err(m) => vm_guest_spec(match detected {
                Some(d) => Some(d@),
                None => None,
            }) == Err::<Seq<CommandSpec>, Seq<char>>(m@),
        },
{
    let out = match detected {
        Some(o) => o,
        None => {
            return Err(DETECTION_FAILED_MESSAGE);
        },
    };
    let t = trim_str(out);
    if str_is(t.as_str(), "oracle") {
        let a: [&str; 4] = ["-S", "--needed", "--noconfirm", "virtualbox-guest-utils"];
        let c = aur_command(a.as_slice(), "Installing VirtualBox guest utilities...");
        assert(strs_view(a@) =~= seq!["-S"@, "--needed"@, "--noconfirm"@, "virtualbox-guest-utils"@]);
        let s = CommandSequence::new().then_run(c);
        assert(sequence_spec(s) =~= seq![command_spec(c)]);
        Ok(s)
    } else if str_is(t.as_str(), "kvm") {
        let a: [&str; 5] = ["-S", "--needed", "--noconfirm", "qemu-guest-agent", "spice-vdagent"];
        let c = aur_command(a.as_slice(), "Installing KVM/QEMU guest agents...");
        assert(strs_view(a@) =~= seq!["-S"@, "--needed"@, "--noconfirm"@, "qemu-guest-agent"@, "spice-vdagent"@]);
        let s = CommandSequence::new().then_run(c);
        assert(sequence_spec(s) =~= seq![command_spec(c)]);
        Ok(s)
    } else {
        Err(UNSUPPORTED_VIRT_MESSAGE)
    }
}

/// Shell line rating the Arch mirrors into the mirrorlist.
pub const ARCH_MIRRORS: &'static str = "rate-mirrors --allow-root --protocol https arch | tee /etc/pacman.d/mirrorlist";

/// Shell line rating the Chaotic-AUR mirrors into its mirrorlist.
pub const CHAOTIC_MIRRORS: &'static str = "rate-mirrors --allow-root --protocol https chaotic-aur | tee /etc/pacman.d/chaotic-mirrorlist";

/// Mirrorlist update: `rate-mirrors` installed when missing, the Arch
/// mirrorlist rated, the Chaotic-AUR one when chosen, the databases refreshed.
pub open spec fn mirrorlist_spec(rate_mirrors_installed: bool, sel: Seq<Seq<char>>) -> Seq<CommandSpec> {
    step_if(
        !rate_mirrors_installed,
        aur_spec(seq!["-S"@, "--needed"@, "--noconfirm"@, "rate-mirrors"@], "Installing rate-mirrors utility..."@),
    ) + seq![run_spec(CommandType::Privileged, "sh"@, seq!["-c"@, ARCH_MIRRORS@], "Updating Arch mirrorlist..."@)]
        + step_if(
        sel.contains("chaotic"@),
        run_spec(
            CommandType::Privileged,
            "sh"@,
            seq!["-c"@, CHAOTIC_MIRRORS@],
            "Updating Chaotic-AUR mirrorlist..."@,
        ),
    ) + seq![
        run_spec(CommandType::Privileged, "pacman"@, seq!["-Syy"@], "Refreshing package databases..."@),
    ]
}

/// The Chaotic-AUR mirrorlist is rated exactly when "chaotic" is among the
/// chosen ids, whether `rate-mirrors` was already installed or not; it comes
/// right after the Arch mirrorlist, which always follows the `rate-mirrors`
/// installation (made only when it is missing), and the package databases
/// are always refreshed last.
pub proof fn law_chaotic_mirrors_when_chosen(rate_mirrors_installed: bool, sel: Seq<Seq<char>>)
    ensures
        ({
            let s = mirrorlist_spec(rate_mirrors_installed, sel);
            let first: int = if rate_mirrors_installed { 0int } else { 1int };
            let chaotic = run_spec(
                CommandType::Privileged,
                "sh"@,
                seq!["-c"@, "rate-mirrors --allow-root --protocol https chaotic-aur | tee /etc/pacman.d/chaotic-mirrorlist"@],
                "Updating Chaotic-AUR mirrorlist..."@,
            );
            &&& s.len() == 2 + first + (if sel.contains("chaotic"@) { 1int } else { 0int })
            &&& s.contains(chaotic) == sel.contains("chaotic"@)
            &&& sel.contains("chaotic"@) ==> s[first + 1] == chaotic
            &&& !rate_mirrors_installed ==> s[0] == aur_spec(
                seq!["-S"@, "--needed"@, "--noconfirm"@, "rate-mirrors"@],
                "Installing rate-mirrors utility..."@,
            )
            &&& s[first] == run_spec(
                CommandType::Privileged,
                "sh"@,
                seq!["-c"@, "rate-mirrors --allow-root --protocol https arch | tee /etc/pacman.d/mirrorlist"@],
                "Updating Arch mirrorlist..."@,
            )
            &&& s.last() == run_spec(CommandType::Privileged, "pacman"@, seq!["-Syy"@], "Refreshing package databases..."@)
        }),
{
    let s = mirrorlist_spec(rate_mirrors_installed, sel);
    let install = aur_spec(seq!["-S"@, "--needed"@, "--noconfirm"@, "rate-mirrors"@], "Installing rate-mirrors utility..."@);
    let arch = run_spec(CommandType::Privileged, "sh"@, seq!["-c"@, ARCH_MIRRORS@], "Updating Arch mirrorlist..."@);
    let chaotic = run_spec(CommandType::Privileged, "sh"@, seq!["-c"@, CHAOTIC_MIRRORS@], "Updating Chaotic-AUR mirrorlist..."@);
    let refresh = run_spec(CommandType::Privileged, "pacman"@, seq!["-Syy"@], "Refreshing package databases..."@);
    let chosen = sel.contains("chaotic"@);
    let a = step_if(!rate_mirrors_installed, install) + seq![arch];
    let b = a + step_if(chosen, chaotic);
    assert(s == b + seq![refresh]);
    reveal_strlit("Updating Arch mirrorlist...");
    reveal_strlit("Updating Chaotic-AUR mirrorlist...");
    reveal_strlit("Refreshing package databases...");
    assert(arch.description.len() != chaotic.description.len());
    assert(refresh.description.len() != chaotic.description.len());
    let first: int = if rate_mirrors_installed { 0int } else { 1int };
    assert(s[first] == arch);
    assert(s.last() == refresh);
    if chosen {
        assert(s[first + 1] == chaotic);
    } else {
        assert forall|j: int| 0 <= j < s.len() implies s[j] != chaotic by {
            if j < first {
                assert(s[j] == install);
            } else if j == first {
                assert(s[j] == arch);
            } else {
                assert(s[j] == refresh);
            }
        }
    }
}

/// The commands updating the mirrorlists (see `mirrorlist_spec`).
pub fn mirrorlist_commands(rate_mirrors_installed: bool, selected: &Vec<String>) -> (r: CommandSequence)
    ensures
        sequence_spec(r) == mirrorlist_spec(rate_mirrors_installed, strings_view(selected@)),
{
    let a1: [&str; 4] = ["-S", "--needed", "--noconfirm", "rate-mirrors"];
    let c1 = aur_command(a1.as_slice(), "Installing rate-mirrors utility...");
    assert(strs_view(a1@) =~= seq!["-S"@, "--needed"@, "--noconfirm"@, "rate-mirrors"@]);
    let s0 = CommandSequence::new();
    assert(sequence_spec(s0) =~= Seq::<CommandSpec>::empty());
    let s1 = then_if(s0, !rate_mirrors_installed, c1);
    let a2: [&str; 2] = ["-c", ARCH_MIRRORS];
    let c2 = privileged_command("sh", a2.as_slice(), "Updating Arch mirrorlist...");
    assert(strs_view(a2@) =~= seq!["-c"@, ARCH_MIRRORS@]);
    let s2 = then_if(s1, true, c2);
    let a3: [&str; 2] = ["-c", CHAOTIC_MIRRORS];
    let c3 = privileged_command("sh", a3.as_slice(), "Updating Chaotic-AUR mirrorlist...");
    assert(strs_view(a3@) =~= seq!["-c"@, CHAOTIC_MIRRORS@]);
    let s3 = then_if(s2, has_id(selected, "chaotic"), c3);
    let a4: [&str; 1] = ["-Syy"];
    let c4 = privileged_command("pacman", a4.as_slice(), "Refreshing package databases...");
    assert(strs_view(a4@) =~= seq!["-Syy"@]);
    let s4 = then_if(s3, true, c4);
    assert(sequence_spec(s4) =~= mirrorlist_spec(rate_mirrors_installed, strings_view(selected@)));
    s4
}

} // verus!
