//! Hardware driver installations run in the interactive terminal.

use vstd::prelude::*;
use crate::command::{strings_view, strs_view};
use crate::recipes::has_id;
use crate::terminal::TerminalCommand;

verus! {

/// Choice id of the proprietary NVIDIA driver.
pub const NVIDIA_CLOSED: &'static str = "nvidia_closed";

/// Choice id of the open NVIDIA kernel modules.
pub const NVIDIA_OPEN: &'static str = "nvidia_open";

/// Why a driver installation cannot start.
#[derive(Debug, Clone, Copy, PartialEq, Eq, Structural)]
pub enum DriverError {
    /// Both NVIDIA drivers were chosen; they exclude each other.
    BothNvidiaDrivers,
    /// No AUR helper (paru or yay) is installed.
    NoAurHelper,
}

impl DriverError {
    /// The message written to the terminal.
    pub open spec fn message_spec(self) -> Seq<char> {
        match self {
            DriverError::BothNvidiaDrivers =>
                "\r\nERROR: Cannot install both closed and open source NVIDIA drivers.\r\nPlease select only one.\r\n"@,
            DriverError::NoAurHelper => "\r\nERROR: No AUR helper detected (paru or yay required).\r\n"@,
        }
    }

    /// The message written to the terminal.
    pub fn message(&self) -> (r: &'static str)
        ensures
            r@ == self.message_spec(),
    {
        match self {
            DriverError::BothNvidiaDrivers =>
                "\r\nERROR: Cannot install both closed and open source NVIDIA drivers.\r\nPlease select only one.\r\n",
            DriverError::NoAurHelper => "\r\nERROR: No AUR helper detected (paru or yay required).\r\n",
        }
    }
}

/// A terminal command by its characters: the program and its arguments.
pub open spec fn terminal_view(c: TerminalCommand) -> (Seq<char>, Seq<Seq<char>>) {
    (c.command@, strings_view(c.args@))
}

/// The commands of `v` by their characters.
pub open spec fn terminal_views(v: Seq<TerminalCommand>) -> Seq<(Seq<char>, Seq<Seq<char>>)> {
    v.map_values(|c: TerminalCommand| terminal_view(c))
}

/// Helper arguments installing the proprietary NVIDIA driver.
pub open spec fn nvidia_closed_args() -> Seq<Seq<char>> {
    seq![
        "-S"@, "--needed"@, "--noconfirm"@, "libvdpau"@, "egl-wayland"@, "nvidia-dkms"@,
        "nvidia-utils"@, "opencl-nvidia"@, "libvdpau-va-gl"@, "nvidia-settings"@,
        "vulkan-icd-loader"@, "lib32-nvidia-utils"@, "lib32-opencl-nvidia"@,
        "linux-firmware-nvidia"@, "lib32-vulkan-icd-loader"@,
    ]
}

/// Helper arguments installing the open NVIDIA kernel modules.
pub open spec fn nvidia_open_args() -> Seq<Seq<char>> {
    seq![
        "-S"@, "--needed"@, "--noconfirm"@, "libvdpau"@, "egl-wayland"@, "nvidia-utils"@,
        "opencl-nvidia"@, "libvdpau-va-gl"@, "nvidia-settings"@, "nvidia-open-dkms"@,
        "vulkan-icd-loader"@, "lib32-nvidia-utils"@, "lib32-opencl-nvidia"@,
        "linux-firmware-nvidia"@, "lib32-vulkan-icd-loader"@,
    ]
}

/// The post-installation script, run with `sudo bash`.
pub const NVIDIA_SETUP_SCRIPT: &'static str = "/opt/xero-toolkit/scripts/nv-setup.sh";

/// `seq![x]` when `cond` holds, else nothing.
pub open spec fn one_if<A>(cond: bool, x: A) -> Seq<A> {
    if cond {
        seq![x]
    } else {
        Seq::empty()
    }
}

/// The commands installing the chosen NVIDIA driver with `helper`: the
/// driver's packages, then the setup script when a driver was chosen.
pub open spec fn gpu_plan(sel: Seq<Seq<char>>, helper: Seq<char>) -> Seq<(Seq<char>, Seq<Seq<char>>)> {
    let closed = sel.contains(NVIDIA_CLOSED@);
    let open = sel.contains(NVIDIA_OPEN@);
    one_if(closed, (helper, nvidia_closed_args())) + one_if(open, (helper, nvidia_open_args()))
        + one_if(closed || open, ("sudo"@, seq!["bash"@, NVIDIA_SETUP_SCRIPT@]))
}

/// With no NVIDIA driver chosen nothing is run; with exactly one chosen
/// (proprietary or open), its packages are installed with the helper and the
/// setup script `sudo bash /opt/xero-toolkit/scripts/nv-setup.sh` runs
/// after them, last, whichever of the two it is.
pub proof fn law_nvidia_setup_follows_either_driver(sel: Seq<Seq<char>>, helper: Seq<char>)
    ensures
        !sel.contains(NVIDIA_CLOSED@) && !sel.contains(NVIDIA_OPEN@) ==> gpu_plan(sel, helper).len() == 0,
        sel.contains(NVIDIA_CLOSED@) && !sel.contains(NVIDIA_OPEN@) ==> gpu_plan(sel, helper) == seq![
            (helper, nvidia_closed_args()),
            ("sudo"@, seq!["bash"@, "/opt/xero-toolkit/scripts/nv-setup.sh"@]),
        ],
        sel.contains(NVIDIA_OPEN@) && !sel.contains(NVIDIA_CLOSED@) ==> gpu_plan(sel, helper) == seq![
            (helper, nvidia_open_args()),
            ("sudo"@, seq!["bash"@, "/opt/xero-toolkit/scripts/nv-setup.sh"@]),
        ],
        sel.contains(NVIDIA_CLOSED@) || sel.contains(NVIDIA_OPEN@) ==> gpu_plan(sel, helper).last() == (
            "sudo"@,
            seq!["bash"@, "/opt/xero-toolkit/scripts/nv-setup.sh"@],
        ),
{
    let p = gpu_plan(sel, helper);
    let setup = ("sudo"@, seq!["bash"@, NVIDIA_SETUP_SCRIPT@]);
    let closed = sel.contains(NVIDIA_CLOSED@);
    let open = sel.contains(NVIDIA_OPEN@);
    let head = one_if(closed, (helper, nvidia_closed_args())) + one_if(open, (helper, nvidia_open_args()));
    assert(p == head + one_if(closed || open, setup));
    if closed && !open {
        assert(p =~= seq![(helper, nvidia_closed_args()), setup]);
    }
    if open && !closed {
        assert(p =~= seq![(helper, nvidia_open_args()), setup]);
    }
    if closed || open {
        assert(p.last() == setup);
    }
}

/// The commands installing the NVIDIA driver chosen among `selected`, with the
/// AUR helper in use: refused when both drivers are chosen, then when there
/// is no helper; empty when no driver is chosen.
pub fn gpu_driver_commands(selected: &Vec<String>, helper: Option<&str>) -> (r: Result<
    Vec<TerminalCommand>,
    DriverError,
>)
    ensures
        ({
            let sel = strings_view(selected@);
            let both = sel.contains(NVIDIA_CLOSED@) && sel.contains(NVIDIA_OPEN@);
            match r {
                Err(DriverError::BothNvidiaDrivers) => both,
                Err(DriverError::NoAurHelper) => !both && helper is None,
                Ok(cmds) => !both && helper is Some && terminal_views(cmds@) == gpu_plan(
                    sel,
                    helper->0@,
                ),
            }
        }),
{
    let closed = has_id(selected, NVIDIA_CLOSED);
    let open = has_id(selected, NVIDIA_OPEN);
    if closed && open {
        return Err(DriverError::BothNvidiaDrivers);
    }
    let h = match helper {
        Some(h) => h,
        None => {
            return Err(DriverError::NoAurHelper);
        },
    };
    let mut cmds: Vec<TerminalCommand> = Vec::new();
    if closed {
        let a: [&str; 15] = [
            "-S",
            "--needed",
            "--noconfirm",
            "libvdpau",
            "egl-wayland",
            "nvidia-dkms",
            "nvidia-utils",
            "opencl-nvidia",
            "libvdpau-va-gl",
            "nvidia-settings",
            "vulkan-icd-loader",
            "lib32-nvidia-utils",
            "lib32-opencl-nvidia",
            "linux-firmware-nvidia",
            "lib32-vulkan-icd-loader",
        ];
        let c = TerminalCommand::new(h, a.as_slice());
        assert(strs_view(a@) =~= nvidia_closed_args());
        cmds.push(c);
    }
    let ghost after_closed = cmds@;
    if open {
        let a: [&str; 15] = [
            "-S",
            "--needed",
            "--noconfirm",
            "libvdpau",
            "egl-wayland",
            "nvidia-utils",
            "opencl-nvidia",
            "libvdpau-va-gl",
            "nvidia-settings",
            "nvidia-open-dkms",
            "vulkan-icd-loader",
            "lib32-nvidia-utils",
            "lib32-opencl-nvidia",
            "linux-firmware-nvidia",
            "lib32-vulkan-icd-loader",
        ];
        let c = TerminalCommand::new(h, a.as_slice());
        assert(strs_view(a@) =~= nvidia_open_args());
        cmds.push(c);
    }
    let ghost after_open = cmds@;
    if cmds.len() > 0 {
        let a: [&str; 2] = ["bash", NVIDIA_SETUP_SCRIPT];
        let c = TerminalCommand::new("sudo", a.as_slice());
        assert(strs_view(a@) =~= seq!["bash"@, NVIDIA_SETUP_SCRIPT@]);
        cmds.push(c);
    }
    proof {
        let sel = strings_view(selected@);
        assert(terminal_views(after_closed) =~= one_if(closed, (h@, nvidia_closed_args())));
        assert(terminal_views(after_open) =~= one_if(closed, (h@, nvidia_closed_args())) + one_if(
            open,
            (h@, nvidia_open_args()),
        ));
        assert(terminal_views(cmds@) =~= gpu_plan(sel, h@));
    }
    Ok(cmds)
}

/// The commands installing the ASUS ROG tools with `helper`: the packages,
/// then their services enabled.
pub open spec fn asus_rog_plan(helper: Seq<char>) -> Seq<(Seq<char>, Seq<Seq<char>>)> {
    seq![
        (helper, seq!["-S"@, "--noconfirm"@, "--needed"@, "rog-control-center"@, "asusctl"@, "supergfxctl"@]),
        ("sudo"@, seq!["systemctl"@, "enable"@, "--now"@, "asusd"@, "supergfxd"@]),
    ]
}

/// The commands installing the ASUS ROG tools, with the AUR helper in use.
pub fn asus_rog_commands(helper: Option<&str>) -> (r: Result<Vec<TerminalCommand>, DriverError>)
    ensures
        match r {
            Err(e) => helper is None && e == DriverError::NoAurHelper,
            Ok(cmds) => helper is Some && terminal_views(cmds@) == asus_rog_plan(helper->0@),
        },
{
    let h = match helper {
        Some(h) => h,
        None => {
            return Err(DriverError::NoAurHelper);
        },
    };
    let a1: [&str; 6] = ["-S", "--noconfirm", "--needed", "rog-control-center", "asusctl", "supergfxctl"];
    let c1 = TerminalCommand::new(h, a1.as_slice());
    let a2: [&str; 5] = ["systemctl", "enable", "--now", "asusd", "supergfxd"];
    let c2 = TerminalCommand::new("sudo", a2.as_slice());
    assert(strs_view(a1@) =~= seq!["-S"@, "--noconfirm"@, "--needed"@, "rog-control-center"@, "asusctl"@, "supergfxctl"@]);
    assert(strs_view(a2@) =~= seq!["systemctl"@, "enable"@, "--now"@, "asusd"@, "supergfxd"@]);
    let mut cmds: Vec<TerminalCommand> = Vec::new();
    cmds.push(c1);
    cmds.push(c2);
    assert(terminal_views(cmds@) =~= asus_rog_plan(h@));
    Ok(cmds)
}

} // verus!
