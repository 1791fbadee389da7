//! Command sequences whose steps depend on the user's choices.

use vstd::prelude::*;
use crate::command::{
    aur_command, aur_spec, command_spec, normal_command, privileged_command, run_spec,
    sequence_spec, strings_view, strs_view, step_if, Command, CommandSequence, CommandSpec,
    CommandType,
};

verus! {

/// `-S --noconfirm --needed` followed by the packages, through the AUR helper.
pub open spec fn aur_install_spec(pkgs: Seq<Seq<char>>, description: Seq<char>) -> CommandSpec {
    aur_spec(seq!["-S"@, "--noconfirm"@, "--needed"@] + pkgs, description)
}

/// `flatpak install -y` followed by the given arguments.
pub open spec fn flatpak_install_spec(ids: Seq<Seq<char>>, description: Seq<char>) -> CommandSpec {
    run_spec(CommandType::Normal, "flatpak"@, seq!["install"@, "-y"@] + ids, description)
}

fn prefixed<'a>(prefix: &[&'static str], rest: &[&'a str]) -> (r: Vec<&'a str>)
    ensures
        strs_view(r@) == strs_view(prefix@) + strs_view(rest@),
{
    let mut v: Vec<&str> = Vec::new();
    let mut i: usize = 0;
    while i < prefix.len()
        invariant
            i <= prefix@.len(),
            v@.len() == i,
            forall|k: int| 0 <= k < i ==> #[trigger] v@[k]@ == prefix@[k]@,
        decreases prefix@.len() - i,
    {
        v.push(prefix[i]);
        i = i + 1;
    }
    let mut j: usize = 0;
    while j < rest.len()
        invariant
            j <= rest@.len(),
            v@.len() == prefix@.len() + j,
            forall|k: int| 0 <= k < prefix@.len() ==> #[trigger] v@[k]@ == prefix@[k]@,
            forall|k: int| 0 <= k < j ==> #[trigger] v@[prefix@.len() + k]@ == rest@[k]@,
        decreases rest@.len() - j,
    {
        v.push(rest[j]);
        j = j + 1;
    }
    assert forall|k: int| 0 <= k < v@.len() implies #[trigger] strs_view(v@)[k] == (strs_view(prefix@)
        + strs_view(rest@))[k] by {
        if k >= prefix@.len() {
            assert(v@[prefix@.len() + (k - prefix@.len())]@ == rest@[k - prefix@.len()]@);
        }
    }
    assert(strs_view(v@) =~= strs_view(prefix@) + strs_view(rest@));
    v
}

/// Installs packages through the AUR helper.
pub fn aur_install(pkgs: &[&str], description: &str) -> (c: Command)
    ensures
        command_spec(c) == aur_install_spec(strs_view(pkgs@), description@),
{
    let head: [&'static str; 3] = ["-S", "--noconfirm", "--needed"];
    let args = prefixed(head.as_slice(), pkgs);
    assert(strs_view(head@) =~= seq!["-S"@, "--noconfirm"@, "--needed"@]);
    aur_command(args.as_slice(), description)
}

/// Installs Flatpak applications.
pub fn flatpak_install(ids: &[&str], description: &str) -> (c: Command)
    ensures
        command_spec(c) == flatpak_install_spec(strs_view(ids@), description@),
{
    let head: [&'static str; 2] = ["install", "-y"];
    let args = prefixed(head.as_slice(), ids);
    assert(strs_view(head@) =~= seq!["install"@, "-y"@]);
    normal_command("flatpak", args.as_slice(), description)
}

/// Appends `c` when `cond` holds.
pub fn then_if(s: CommandSequence, cond: bool, c: Command) -> (r: CommandSequence)
    ensures
        sequence_spec(r) == sequence_spec(s) + step_if(cond, command_spec(c)),
{
    if cond {
        let r = s.then_run(c);
        assert(sequence_spec(r) =~= sequence_spec(s) + step_if(cond, command_spec(c)));
        r
    } else {
        assert(sequence_spec(s) =~= sequence_spec(s) + step_if(cond, command_spec(c)));
        s
    }
}

/// Whether `id` was chosen.
pub fn has_id(selected: &Vec<String>, id: &str) -> (r: bool)
    ensures
        r == strings_view(selected@).contains(id@),
{
    let mut i: usize = 0;
    while i < selected.len()
        invariant
            i <= selected@.len(),
            forall|k: int| 0 <= k < i ==> #[trigger] selected@[k]@ != id@,
        decreases selected@.len() - i,
    {
        if crate::text::str_is(selected[i].as_str(), id) {
            assert(strings_view(selected@)[i as int] == id@);
            return true;
        }
        i = i + 1;
    }
    assert(!strings_view(selected@).contains(id@)) by {
        if strings_view(selected@).contains(id@) {
            let k = choose|k: int| 0 <= k < strings_view(selected@).len() && strings_view(selected@)[k] == id@;
            assert(selected@[k]@ == id@);
        }
    }
    false
}

/// The package-manager applications chosen, in a fixed order.
pub open spec fn pkg_manager_spec(sel: Seq<Seq<char>>) -> Seq<CommandSpec> {
    step_if(sel.contains("octopi"@), aur_install_spec(seq!["octopi"@], "Installing Octopi package manager..."@))
        + step_if(
        sel.contains("pacseek"@),
        aur_install_spec(seq!["pacseek"@, "pacfinder"@], "Installing PacSeek package browser..."@),
    ) + step_if(sel.contains("bauh"@), aur_install_spec(seq!["bauh"@], "Installing Bauh package manager..."@))
        + step_if(
        sel.contains("warehouse"@),
        flatpak_install_spec(seq!["io.github.flattool.Warehouse"@], "Installing Warehouse from Flathub..."@),
    ) + step_if(
        sel.contains("flatseal"@),
        flatpak_install_spec(seq!["com.github.tchx84.Flatseal"@], "Installing Flatseal from Flathub..."@),
    ) + step_if(
        sel.contains("bazaar"@),
        flatpak_install_spec(seq!["io.github.kolunmi.Bazaar"@], "Installing Bazaar from Flathub..."@),
    )
}

/// Commands installing the chosen package-manager applications.
pub fn build_pkg_manager_commands(selected: &Vec<String>) -> (r: CommandSequence)
    ensures
        sequence_spec(r) == pkg_manager_spec(strings_view(selected@)),
{
    let s0 = CommandSequence::new();
    let a1: [&str; 1] = ["octopi"];
    let s1 = then_if(s0, has_id(selected, "octopi"), aur_install(a1.as_slice(), "Installing Octopi package manager..."));
    assert(strs_view(a1@) =~= seq!["octopi"@]);
    assert(sequence_spec(s0) =~= Seq::<CommandSpec>::empty());
    assert(sequence_spec(s1) =~= step_if(
        strings_view(selected@).contains("octopi"@),
        aur_install_spec(seq!["octopi"@], "Installing Octopi package manager..."@),
    ));
    let a2: [&str; 2] = ["pacseek", "pacfinder"];
    let s2 = then_if(s1, has_id(selected, "pacseek"), aur_install(a2.as_slice(), "Installing PacSeek package browser..."));
    assert(strs_view(a2@) =~= seq!["pacseek"@, "pacfinder"@]);
    let a3: [&str; 1] = ["bauh"];
    let s3 = then_if(s2, has_id(selected, "bauh"), aur_install(a3.as_slice(), "Installing Bauh package manager..."));
    assert(strs_view(a3@) =~= seq!["bauh"@]);
    let a4: [&str; 1] = ["io.github.flattool.Warehouse"];
    let s4 = then_if(s3, has_id(selected, "warehouse"), flatpak_install(a4.as_slice(), "Installing Warehouse from Flathub..."));
    assert(strs_view(a4@) =~= seq!["io.github.flattool.Warehouse"@]);
    let a5: [&str; 1] = ["com.github.tchx84.Flatseal"];
    let s5 = then_if(s4, has_id(selected, "flatseal"), flatpak_install(a5.as_slice(), "Installing Flatseal from Flathub..."));
    assert(strs_view(a5@) =~= seq!["com.github.tchx84.Flatseal"@]);
    let a6: [&str; 1] = ["io.github.kolunmi.Bazaar"];
    let s6 = then_if(s5, has_id(selected, "bazaar"), flatpak_install(a6.as_slice(), "Installing Bazaar from Flathub..."));
    assert(strs_view(a6@) =~= seq!["io.github.kolunmi.Bazaar"@]);
    s6
}

/// OpenRazer: the drivers, the user in `plugdev`, then the chosen frontends.
pub open spec fn openrazer_spec(sel: Seq<Seq<char>>, user: Seq<char>) -> Seq<CommandSpec> {
    seq![
        aur_install_spec(seq!["openrazer-meta-git"@], "Installing OpenRazer drivers..."@),
        run_spec(CommandType::Privileged, "usermod"@, seq!["-aG"@, "plugdev"@, user], "Adding user to plugdev group..."@),
    ] + step_if(
        sel.contains("polychromatic"@),
        aur_install_spec(seq!["polychromatic"@], "Installing Polychromatic frontend..."@),
    ) + step_if(
        sel.contains("razergenie"@),
        aur_install_spec(seq!["razergenie"@], "Installing RazerGenie frontend..."@),
    )
}

/// Commands installing OpenRazer for `user` with the chosen frontends.
pub fn build_openrazer_commands(selected: &Vec<String>, user: &str) -> (r: CommandSequence)
    ensures
        sequence_spec(r) == openrazer_spec(strings_view(selected@), user@),
{
    let a1: [&str; 1] = ["openrazer-meta-git"];
    let c1 = aur_install(a1.as_slice(), "Installing OpenRazer drivers...");
    assert(strs_view(a1@) =~= seq!["openrazer-meta-git"@]);
    let a2: [&str; 3] = ["-aG", "plugdev", user];
    let c2 = privileged_command("usermod", a2.as_slice(), "Adding user to plugdev group...");
    assert(strs_view(a2@) =~= seq!["-aG"@, "plugdev"@, user@]);
    let s0 = CommandSequence::new();
    let s1 = then_if(s0, true, c1);
    let s2 = then_if(s1, true, c2);
    assert(sequence_spec(s2) =~= seq![command_spec(c1), command_spec(c2)]);
    let a3: [&str; 1] = ["polychromatic"];
    let s3 = then_if(s2, has_id(selected, "polychromatic"), aur_install(a3.as_slice(), "Installing Polychromatic frontend..."));
    assert(strs_view(a3@) =~= seq!["polychromatic"@]);
    let a4: [&str; 1] = ["razergenie"];
    let s4 = then_if(s3, has_id(selected, "razergenie"), aur_install(a4.as_slice(), "Installing RazerGenie frontend..."));
    assert(strs_view(a4@) =~= seq!["razergenie"@]);
    s4
}

/// The line that loads the V4L2 loopback module at boot.
pub const V4L2_LOAD: &'static str = "echo 'v4l2loopback' > /etc/modules-load.d/v4l2loopback.conf";

/// The line that configures the virtual camera.
pub const V4L2_OPTIONS: &'static str = "echo 'options v4l2loopback exclusive_caps=1 card_label=\"OBS Virtual Camera\"' > /etc/modprobe.d/v4l2loopback.conf";

/// OBS Studio (always, or when "obs" is chosen), then each chosen group of
/// plugins, then the virtual camera when chosen.
pub open spec fn obs_spec(always_obs: bool, sel: Seq<Seq<char>>) -> Seq<CommandSpec> {
    step_if(
        always_obs || sel.contains("obs"@),
        flatpak_install_spec(seq!["com.obsproject.Studio"@], "Installing OBS-Studio..."@),
    ) + step_if(
        sel.contains("wayland_hotkeys"@),
        flatpak_install_spec(
            seq!["com.obsproject.Studio.Plugin.WaylandHotkeys"@],
            "Installing Wayland Hotkeys plugin..."@,
        ),
    ) + step_if(
        sel.contains("graphics_capture"@),
        flatpak_install_spec(
            seq![
                "com.obsproject.Studio.Plugin.OBSVkCapture"@,
                "org.freedesktop.Platform.VulkanLayer.OBSVkCapture/x86_64/25.08"@,
                "com.obsproject.Studio.Plugin.Gstreamer"@,
                "com.obsproject.Studio.Plugin.GStreamerVaapi"@,
            ],
            "Installing graphics capture plugins..."@,
        ),
    ) + step_if(
        sel.contains("transitions_effects"@),
        flatpak_install_spec(
            seq![
                "com.obsproject.Studio.Plugin.MoveTransition"@,
                "com.obsproject.Studio.Plugin.TransitionTable"@,
                "com.obsproject.Studio.Plugin.ScaleToSound"@,
            ],
            "Installing transitions & effects plugins..."@,
        ),
    ) + step_if(
        sel.contains("streaming_tools"@),
        flatpak_install_spec(
            seq![
                "com.obsproject.Studio.Plugin.WebSocket"@,
                "com.obsproject.Studio.Plugin.SceneSwitcher"@,
                "com.obsproject.Studio.Plugin.DroidCam"@,
            ],
            "Installing streaming tools..."@,
        ),
    ) + step_if(
        sel.contains("audio_video_tools"@),
        flatpak_install_spec(
            seq![
                "com.obsproject.Studio.Plugin.waveform"@,
                "com.obsproject.Studio.Plugin.VerticalCanvas"@,
                "com.obsproject.Studio.Plugin.BackgroundRemoval"@,
            ],
            "Installing audio/video enhancement plugins..."@,
        ),
    ) + step_if(
        sel.contains("v4l2"@),
        aur_install_spec(
            seq!["v4l2loopback-dkms"@, "v4l2loopback-utils"@],
            "Installing V4L2 loopback modules..."@,
        ),
    ) + step_if(
        sel.contains("v4l2"@),
        run_spec(
            CommandType::Privileged,
            "sh"@,
            seq!["-c"@, V4L2_LOAD@],
            "Enabling V4L2 loopback module at boot..."@,
        ),
    ) + step_if(
        sel.contains("v4l2"@),
        run_spec(
            CommandType::Privileged,
            "sh"@,
            seq!["-c"@, V4L2_OPTIONS@],
            "Configuring virtual camera options..."@,
        ),
    )
}

/// Commands installing OBS Studio (always when `always_obs`, else when
/// chosen) with the chosen plugins.
pub fn build_obs_commands(selected: &Vec<String>, always_obs: bool) -> (r: CommandSequence)
    ensures
        sequence_spec(r) == obs_spec(always_obs, strings_view(selected@)),
{
    let a0: [&str; 1] = ["com.obsproject.Studio"];
    let c0 = flatpak_install(a0.as_slice(), "Installing OBS-Studio...");
    assert(strs_view(a0@) =~= seq!["com.obsproject.Studio"@]);
    let e = CommandSequence::new();
    assert(sequence_spec(e) =~= Seq::<CommandSpec>::empty());
    let s0 = then_if(e, always_obs || has_id(selected, "obs"), c0);
    let a1: [&str; 1] = ["com.obsproject.Studio.Plugin.WaylandHotkeys"];
    let s1 = then_if(s0, has_id(selected, "wayland_hotkeys"), flatpak_install(a1.as_slice(), "Installing Wayland Hotkeys plugin..."));
    assert(strs_view(a1@) =~= seq!["com.obsproject.Studio.Plugin.WaylandHotkeys"@]);
    let a2: [&str; 4] = [
        "com.obsproject.Studio.Plugin.OBSVkCapture",
        "org.freedesktop.Platform.VulkanLayer.OBSVkCapture/x86_64/25.08",
        "com.obsproject.Studio.Plugin.Gstreamer",
        "com.obsproject.Studio.Plugin.GStreamerVaapi",
    ];
    let s2 = then_if(s1, has_id(selected, "graphics_capture"), flatpak_install(a2.as_slice(), "Installing graphics capture plugins..."));
    assert(strs_view(a2@) =~= seq![
        "com.obsproject.Studio.Plugin.OBSVkCapture"@,
        "org.freedesktop.Platform.VulkanLayer.OBSVkCapture/x86_64/25.08"@,
        "com.obsproject.Studio.Plugin.Gstreamer"@,
        "com.obsproject.Studio.Plugin.GStreamerVaapi"@,
    ]);
    let a3: [&str; 3] = [
        "com.obsproject.Studio.Plugin.MoveTransition",
        "com.obsproject.Studio.Plugin.TransitionTable",
        "com.obsproject.Studio.Plugin.ScaleToSound",
    ];
    let s3 = then_if(s2, has_id(selected, "transitions_effects"), flatpak_install(a3.as_slice(), "Installing transitions & effects plugins..."));
    assert(strs_view(a3@) =~= seq![
        "com.obsproject.Studio.Plugin.MoveTransition"@,
        "com.obsproject.Studio.Plugin.TransitionTable"@,
        "com.obsproject.Studio.Plugin.ScaleToSound"@,
    ]);
    let a4: [&str; 3] = [
        "com.obsproject.Studio.Plugin.WebSocket",
        "com.obsproject.Studio.Plugin.SceneSwitcher",
        "com.obsproject.Studio.Plugin.DroidCam",
    ];
    let s4 = then_if(s3, has_id(selected, "streaming_tools"), flatpak_install(a4.as_slice(), "Installing streaming tools..."));
    assert(strs_view(a4@) =~= seq![
        "com.obsproject.Studio.Plugin.WebSocket"@,
        "com.obsproject.Studio.Plugin.SceneSwitcher"@,
        "com.obsproject.Studio.Plugin.DroidCam"@,
    ]);
    let a5: [&str; 3] = [
        "com.obsproject.Studio.Plugin.waveform",
        "com.obsproject.Studio.Plugin.VerticalCanvas",
        "com.obsproject.Studio.Plugin.BackgroundRemoval",
    ];
    let s5 = then_if(s4, has_id(selected, "audio_video_tools"), flatpak_install(a5.as_slice(), "Installing audio/video enhancement plugins..."));
    assert(strs_view(a5@) =~= seq![
        "com.obsproject.Studio.Plugin.waveform"@,
        "com.obsproject.Studio.Plugin.VerticalCanvas"@,
        "com.obsproject.Studio.Plugin.BackgroundRemoval"@,
    ]);
    let v4l2 = has_id(selected, "v4l2");
    let a6: [&str; 2] = ["v4l2loopback-dkms", "v4l2loopback-utils"];
    let s6 = then_if(s5, v4l2, aur_install(a6.as_slice(), "Installing V4L2 loopback modules..."));
    assert(strs_view(a6@) =~= seq!["v4l2loopback-dkms"@, "v4l2loopback-utils"@]);
    let a7: [&str; 2] = ["-c", V4L2_LOAD];
    let s7 = then_if(s6, v4l2, privileged_command("sh", a7.as_slice(), "Enabling V4L2 loopback module at boot..."));
    assert(strs_view(a7@) =~= seq!["-c"@, V4L2_LOAD@]);
    let a8: [&str; 2] = ["-c", V4L2_OPTIONS];
    let s8 = then_if(s7, v4l2, privileged_command("sh", a8.as_slice(), "Configuring virtual camera options..."));
    assert(strs_view(a8@) =~= seq!["-c"@, V4L2_OPTIONS@]);
    s8
}

/// Podman, its socket, and the Podman Desktop application when chosen.
pub open spec fn podman_spec(sel: Seq<Seq<char>>) -> Seq<CommandSpec> {
    seq![
        aur_install_spec(seq!["podman"@, "podman-docker"@], "Installing Podman container engine..."@),
        run_spec(
            CommandType::Privileged,
            "systemctl"@,
            seq!["enable"@, "--now"@, "podman.socket"@],
            "Enabling Podman socket..."@,
        ),
    ] + step_if(
        sel.contains("podman_desktop"@),
        flatpak_install_spec(
            seq!["flathub"@, "io.podman_desktop.PodmanDesktop"@],
            "Installing Podman Desktop GUI..."@,
        ),
    )
}

/// Commands installing Podman with the chosen extras.
pub fn build_podman_commands(selected: &Vec<String>) -> (r: CommandSequence)
    ensures
        sequence_spec(r) == podman_spec(strings_view(selected@)),
{
    let a1: [&str; 2] = ["podman", "podman-docker"];
    let c1 = aur_install(a1.as_slice(), "Installing Podman container engine...");
    assert(strs_view(a1@) =~= seq!["podman"@, "podman-docker"@]);
    let a2: [&str; 3] = ["enable", "--now", "podman.socket"];
    let c2 = privileged_command("systemctl", a2.as_slice(), "Enabling Podman socket...");
    assert(strs_view(a2@) =~= seq!["enable"@, "--now"@, "podman.socket"@]);
    let s1 = then_if(CommandSequence::new(), true, c1);
    let s2 = then_if(s1, true, c2);
    assert(sequence_spec(s2) =~= seq![command_spec(c1), command_spec(c2)]);
    let a3: [&str; 2] = ["flathub", "io.podman_desktop.PodmanDesktop"];
    let s3 = then_if(s2, has_id(selected, "podman_desktop"), flatpak_install(a3.as_slice(), "Installing Podman Desktop GUI..."));
    assert(strs_view(a3@) =~= seq!["flathub"@, "io.podman_desktop.PodmanDesktop"@]);
    s3
}

/// The line that enables nested virtualization.
pub const KVM_NESTED: &'static str = "echo 'options kvm-intel nested=1' > /etc/modprobe.d/kvm-intel.conf";

/// KVM/QEMU: conflicting packages removed when installed, then the
/// virtualization packages, nested virtualization and a libvirtd restart.
pub open spec fn kvm_spec(iptables_installed: bool, gnu_netcat_installed: bool) -> Seq<CommandSpec> {
    step_if(
        iptables_installed,
        aur_spec(seq!["-Rdd"@, "--noconfirm"@, "iptables"@], "Removing conflicting iptables..."@),
    ) + step_if(
        gnu_netcat_installed,
        aur_spec(seq!["-Rdd"@, "--noconfirm"@, "gnu-netcat"@], "Removing conflicting gnu-netcat..."@),
    ) + seq![
        aur_install_spec(seq!["virt-manager-meta"@, "openbsd-netcat"@], "Installing virtualization packages..."@),
        run_spec(CommandType::Privileged, "sh"@, seq!["-c"@, KVM_NESTED@], "Enabling nested virtualization..."@),
        run_spec(
            CommandType::Privileged,
            "systemctl"@,
            seq!["restart"@, "libvirtd.service"@],
            "Restarting libvirtd service..."@,
        ),
    ]
}

/// Commands setting up KVM/QEMU, given which conflicting packages are installed.
pub fn build_kvm_commands(iptables_installed: bool, gnu_netcat_installed: bool) -> (r: CommandSequence)
    ensures
        sequence_spec(r) == kvm_spec(iptables_installed, gnu_netcat_installed),
{
    let a1: [&str; 3] = ["-Rdd", "--noconfirm", "iptables"];
    let s1 = then_if(CommandSequence::new(), iptables_installed, aur_command(a1.as_slice(), "Removing conflicting iptables..."));
    assert(strs_view(a1@) =~= seq!["-Rdd"@, "--noconfirm"@, "iptables"@]);
    assert(sequence_spec(s1) =~= step_if(
        iptables_installed,
        aur_spec(seq!["-Rdd"@, "--noconfirm"@, "iptables"@], "Removing conflicting iptables..."@),
    ));
    let a2: [&str; 3] = ["-Rdd", "--noconfirm", "gnu-netcat"];
    let s2 = then_if(s1, gnu_netcat_installed, aur_command(a2.as_slice(), "Removing conflicting gnu-netcat..."));
    assert(strs_view(a2@) =~= seq!["-Rdd"@, "--noconfirm"@, "gnu-netcat"@]);
    let a3: [&str; 2] = ["virt-manager-meta", "openbsd-netcat"];
    let c3 = aur_install(a3.as_slice(), "Installing virtualization packages...");
    assert(strs_view(a3@) =~= seq!["virt-manager-meta"@, "openbsd-netcat"@]);
    let a4: [&str; 2] = ["-c", KVM_NESTED];
    let c4 = privileged_command("sh", a4.as_slice(), "Enabling nested virtualization...");
    assert(strs_view(a4@) =~= seq!["-c"@, KVM_NESTED@]);
    let a5: [&str; 2] = ["restart", "libvirtd.service"];
    let c5 = privileged_command("systemctl", a5.as_slice(), "Restarting libvirtd service...");
    assert(strs_view(a5@) =~= seq!["restart"@, "libvirtd.service"@]);
    let ghost head = sequence_spec(s2);
    let s3 = then_if(s2, true, c3);
    let s4 = then_if(s3, true, c4);
    let s5 = then_if(s4, true, c5);
    assert(sequence_spec(s5) =~= head + seq![command_spec(c3), command_spec(c4), command_spec(c5)]);
    s5
}

/// The KVM/QEMU sequence removes iptables exactly when iptables is installed
/// and gnu-netcat exactly when gnu-netcat is installed, each whatever the
/// other is; the removals come first (iptables before gnu-netcat), and the
/// virtualization packages, nested virtualization and the libvirtd restart
/// always close the sequence, in that order.
pub proof fn law_kvm_removes_each_installed_conflict(iptables_installed: bool, gnu_netcat_installed: bool)
    ensures
        kvm_spec(iptables_installed, gnu_netcat_installed).len() == 3 + (if iptables_installed { 1int } else { 0int })
            + (if gnu_netcat_installed { 1int } else { 0int }),
        kvm_spec(iptables_installed, gnu_netcat_installed).contains(
            aur_spec(seq!["-Rdd"@, "--noconfirm"@, "iptables"@], "Removing conflicting iptables..."@),
        ) == iptables_installed,
        kvm_spec(iptables_installed, gnu_netcat_installed).contains(
            aur_spec(seq!["-Rdd"@, "--noconfirm"@, "gnu-netcat"@], "Removing conflicting gnu-netcat..."@),
        ) == gnu_netcat_installed,
        iptables_installed ==> kvm_spec(iptables_installed, gnu_netcat_installed)[0] == aur_spec(
            seq!["-Rdd"@, "--noconfirm"@, "iptables"@],
            "Removing conflicting iptables..."@,
        ),
        gnu_netcat_installed ==> kvm_spec(iptables_installed, gnu_netcat_installed)[if iptables_installed { 1int } else { 0int }]
            == aur_spec(seq!["-Rdd"@, "--noconfirm"@, "gnu-netcat"@], "Removing conflicting gnu-netcat..."@),
        ({
            let s = kvm_spec(iptables_installed, gnu_netcat_installed);
            s.subrange(s.len() - 3, s.len() as int) == seq![
                aur_spec(
                    seq!["-S"@, "--noconfirm"@, "--needed"@, "virt-manager-meta"@, "openbsd-netcat"@],
                    "Installing virtualization packages..."@,
                ),
                run_spec(CommandType::Privileged, "sh"@, seq!["-c"@, KVM_NESTED@], "Enabling nested virtualization..."@),
                run_spec(
                    CommandType::Privileged,
                    "systemctl"@,
                    seq!["restart"@, "libvirtd.service"@],
                    "Restarting libvirtd service..."@,
                ),
            ]
        }),
{
    let s = kvm_spec(iptables_installed, gnu_netcat_installed);
    let rm_ipt = aur_spec(seq!["-Rdd"@, "--noconfirm"@, "iptables"@], "Removing conflicting iptables..."@);
    let rm_nc = aur_spec(seq!["-Rdd"@, "--noconfirm"@, "gnu-netcat"@], "Removing conflicting gnu-netcat..."@);
    let install = aur_install_spec(seq!["virt-manager-meta"@, "openbsd-netcat"@], "Installing virtualization packages..."@);
    let nested = run_spec(CommandType::Privileged, "sh"@, seq!["-c"@, KVM_NESTED@], "Enabling nested virtualization..."@);
    let restart = run_spec(
        CommandType::Privileged,
        "systemctl"@,
        seq!["restart"@, "libvirtd.service"@],
        "Restarting libvirtd service..."@,
    );
    let tail = seq![install, nested, restart];
    reveal_strlit("Removing conflicting iptables...");
    reveal_strlit("Removing conflicting gnu-netcat...");
    reveal_strlit("Installing virtualization packages...");
    reveal_strlit("Enabling nested virtualization...");
    reveal_strlit("Restarting libvirtd service...");
    assert(install.args =~= seq!["-S"@, "--noconfirm"@, "--needed"@, "virt-manager-meta"@, "openbsd-netcat"@]);
    let head = step_if(iptables_installed, rm_ipt) + step_if(gnu_netcat_installed, rm_nc);
    assert(s == head + tail);
    assert(s.subrange(s.len() - 3, s.len() as int) =~= tail);
    assert(rm_ipt.description.len() != rm_nc.description.len());
    assert(forall|c: CommandSpec| tail.contains(c) ==> c.description.len() != rm_ipt.description.len()
        && c.description.len() != rm_nc.description.len()) by {
        assert forall|c: CommandSpec| tail.contains(c) implies c.description.len() != rm_ipt.description.len()
            && c.description.len() != rm_nc.description.len() by {
            let j = choose|j: int| 0 <= j < tail.len() && tail[j] == c;
            assert(j == 0 || j == 1 || j == 2);
        }
    }
    if iptables_installed {
        assert(s[0] == rm_ipt);
    } else {
        assert forall|j: int| 0 <= j < s.len() implies s[j] != rm_ipt by {
            if j < head.len() {
                assert(s[j] == rm_nc);
            } else {
                assert(tail.contains(s[j]));
            }
        }
    }
    let k: int = if iptables_installed { 1int } else { 0int };
    if gnu_netcat_installed {
        assert(s[k] == rm_nc);
    } else {
        assert forall|j: int| 0 <= j < s.len() implies s[j] != rm_nc by {
            if j < head.len() {
                assert(s[j] == rm_ipt);
            } else {
                assert(s[j] == tail[j - head.len()]);
                assert(tail.contains(s[j]));
            }
        }
    }
}

/// The CUDA package chosen (the first selection), installed through the AUR
/// helper, or nothing when none is chosen.
pub fn build_cuda_commands(selected: &Vec<String>) -> (r: Option<CommandSequence>)
    ensures
        selected@.len() == 0 ==> r is None,
        selected@.len() > 0 ==> r is Some && sequence_spec(r->0) == seq![
            aur_install_spec(seq![selected@[0]@], "Installing "@ + selected@[0]@ + "..."@),
        ],
{
    if selected.len() == 0 {
        return None;
    }
    let package = selected[0].as_str();
    let mut description = "Installing ".to_owned();
    description.append(package);
    description.append("...");
    let a: [&str; 1] = [package];
    let c = aur_install(a.as_slice(), description.as_str());
    assert(strs_view(a@) =~= seq![selected@[0]@]);
    let s = then_if(CommandSequence::new(), true, c);
    assert(sequence_spec(s) =~= seq![command_spec(c)]);
    Some(s)
}

/// Shell line installing Nix in multi-user (daemon) mode.
pub const NIX_MULTI_USER: &'static str = "sh <(curl --proto '=https' --tlsv1.2 -L https://nixos.org/nix/install) --daemon";

/// Shell line installing Nix in single-user mode.
pub const NIX_SINGLE_USER: &'static str = "sh <(curl --proto '=https' --tlsv1.2 -L https://nixos.org/nix/install) --no-daemon";

/// The Nix installation line for the chosen installation type: multi-user
/// when "multi-user" is chosen, single-user otherwise; none without a choice.
pub fn nix_install_command(selected: &Vec<String>) -> (r: Option<&'static str>)
    ensures
        selected@.len() == 0 ==> r is None,
        selected@.len() > 0 ==> r == Some(
            if selected@[0]@ == "multi-user"@ {
                NIX_MULTI_USER
            } else {
                NIX_SINGLE_USER
            },
        ),
{
    if selected.len() == 0 {
        return None;
    }
    if crate::text::str_is(selected[0].as_str(), "multi-user") {
        Some(NIX_MULTI_USER)
    } else {
        Some(NIX_SINGLE_USER)
    }
}

/// Shell line installing the Oh My Zsh framework unattended.
pub const OH_MY_ZSH_INSTALL: &'static str = "curl -fsSL https://raw.githubusercontent.com/ohmyzsh/ohmyzsh/master/tools/install.sh | sh -s -- --unattended";

/// The XeroLinux ZSH configuration.
pub const ZSHRC_URL: &'static str = "https://raw.githubusercontent.com/xerolinux/xero-fixes/main/conf/.zshrc";

/// Where an Oh My Zsh plugin is cloned in `home`.
pub open spec fn zsh_plugin_dir(home: Seq<char>, plugin: Seq<char>) -> Seq<char> {
    home + "/.oh-my-zsh/custom/plugins/"@ + plugin
}

/// Cloning a ZSH plugin repository into the plugin directory.
pub open spec fn zsh_plugin_spec(home: Seq<char>, url: Seq<char>, plugin: Seq<char>, description: Seq<char>) -> CommandSpec {
    run_spec(CommandType::Normal, "git"@, seq!["clone"@, url, zsh_plugin_dir(home, plugin)], description)
}

/// ZSH all-in-one setup for the user `user` whose home is `home`: ZSH,
/// Oh My Zsh, fonts, three plugins, the XeroLinux configuration (the old one
/// kept aside), Konsole switched to ZSH, and ZSH as the login shell.
pub open spec fn zsh_spec(home: Seq<char>, user: Seq<char>) -> Seq<CommandSpec> {
    seq![
        aur_spec(
            seq!["-S"@, "--needed"@, "--noconfirm"@, "zsh"@, "grml-zsh-config"@, "fastfetch"@],
            "Installing ZSH and dependencies..."@,
        ),
        run_spec(CommandType::Normal, "sh"@, seq!["-c"@, OH_MY_ZSH_INSTALL@], "Installing Oh My Zsh framework..."@),
        aur_spec(
            seq![
                "-S"@, "--noconfirm"@, "--needed"@, "pacseek"@, "ttf-meslo-nerd"@, "siji-git"@,
                "otf-unifont"@, "bdf-unifont"@, "noto-color-emoji-fontconfig"@, "xorg-fonts-misc"@,
                "ttf-dejavu"@, "ttf-meslo-nerd-font-powerlevel10k"@, "noto-fonts-emoji"@,
                "powerline-fonts"@, "oh-my-posh-bin"@,
            ],
            "Installing fonts and terminal enhancements..."@,
        ),
        zsh_plugin_spec(
            home,
            "https://github.com/zsh-users/zsh-completions"@,
            "zsh-completions"@,
            "Installing ZSH completions plugin..."@,
        ),
        zsh_plugin_spec(
            home,
            "https://github.com/zsh-users/zsh-autosuggestions"@,
            "zsh-autosuggestions"@,
            "Installing ZSH autosuggestions plugin..."@,
        ),
        zsh_plugin_spec(
            home,
            "https://github.com/zsh-users/zsh-syntax-highlighting.git"@,
            "zsh-syntax-highlighting"@,
            "Installing ZSH syntax highlighting plugin..."@,
        ),
        run_spec(
            CommandType::Normal,
            "sh"@,
            seq!["-c"@, "mv -f "@ + home + "/.zshrc "@ + home + "/.zshrc.user 2>/dev/null || true"@],
            "Backing up existing ZSH configuration..."@,
        ),
        run_spec(
            CommandType::Normal,
            "wget"@,
            seq!["-q"@, "-P"@, home, ZSHRC_URL@],
            "Downloading XeroLinux ZSH configuration..."@,
        ),
        run_spec(
            CommandType::Normal,
            "sh"@,
            seq![
                "-c"@,
                "sed -i 's|Command=/bin/bash|Command=/bin/zsh|g' "@ + home
                    + "/.local/share/konsole/XeroLinux.profile 2>/dev/null || true"@,
            ],
            "Updating Konsole profile to use ZSH..."@,
        ),
        run_spec(CommandType::Privileged, "chsh"@, seq![user, "-s"@, "/bin/zsh"@], "Setting ZSH as default shell..."@),
    ]
}

fn zsh_plugin(home: &str, url: &str, plugin: &str, description: &str) -> (c: Command)
    ensures
        command_spec(c) == zsh_plugin_spec(home@, url@, plugin@, description@),
{
    let mut dir = home.to_owned();
    dir.append("/.oh-my-zsh/custom/plugins/");
    dir.append(plugin);
    let a: [&str; 3] = ["clone", url, dir.as_str()];
    assert(strs_view(a@) =~= seq!["clone"@, url@, zsh_plugin_dir(home@, plugin@)]);
    normal_command("git", a.as_slice(), description)
}

/// Commands of the ZSH all-in-one setup (see `zsh_spec`).
pub fn build_zsh_commands(home: &str, user: &str) -> (r: CommandSequence)
    ensures
        sequence_spec(r) == zsh_spec(home@, user@),
{
    let a1: [&str; 6] = ["-S", "--needed", "--noconfirm", "zsh", "grml-zsh-config", "fastfetch"];
    let c1 = aur_command(a1.as_slice(), "Installing ZSH and dependencies...");
    assert(strs_view(a1@) =~= seq!["-S"@, "--needed"@, "--noconfirm"@, "zsh"@, "grml-zsh-config"@, "fastfetch"@]);
    let a2: [&str; 2] = ["-c", OH_MY_ZSH_INSTALL];
    let c2 = normal_command("sh", a2.as_slice(), "Installing Oh My Zsh framework...");
    assert(strs_view(a2@) =~= seq!["-c"@, OH_MY_ZSH_INSTALL@]);
    let a3: [&str; 15] = [
        "-S",
        "--noconfirm",
        "--needed",
        "pacseek",
        "ttf-meslo-nerd",
        "siji-git",
        "otf-unifont",
        "bdf-unifont",
        "noto-color-emoji-fontconfig",
        "xorg-fonts-misc",
        "ttf-dejavu",
        "ttf-meslo-nerd-font-powerlevel10k",
        "noto-fonts-emoji",
        "powerline-fonts",
        "oh-my-posh-bin",
    ];
    let c3 = aur_command(a3.as_slice(), "Installing fonts and terminal enhancements...");
    assert(strs_view(a3@) =~= seq![
        "-S"@, "--noconfirm"@, "--needed"@, "pacseek"@, "ttf-meslo-nerd"@, "siji-git"@,
        "otf-unifont"@, "bdf-unifont"@, "noto-color-emoji-fontconfig"@, "xorg-fonts-misc"@,
        "ttf-dejavu"@, "ttf-meslo-nerd-font-powerlevel10k"@, "noto-fonts-emoji"@,
        "powerline-fonts"@, "oh-my-posh-bin"@,
    ]);
    let c4 = zsh_plugin(home, "https://github.com/zsh-users/zsh-completions", "zsh-completions", "Installing ZSH completions plugin...");
    let c5 = zsh_plugin(home, "https://github.com/zsh-users/zsh-autosuggestions", "zsh-autosuggestions", "Installing ZSH autosuggestions plugin...");
    let c6 = zsh_plugin(
        home,
        "https://github.com/zsh-users/zsh-syntax-highlighting.git",
        "zsh-syntax-highlighting",
        "Installing ZSH syntax highlighting plugin...",
    );
    let mut backup = "mv -f ".to_owned();
    backup.append(home);
    backup.append("/.zshrc ");
    backup.append(home);
    backup.append("/.zshrc.user 2>/dev/null || true");
    let a7: [&str; 2] = ["-c", backup.as_str()];
    let c7 = normal_command("sh", a7.as_slice(), "Backing up existing ZSH configuration...");
    assert(strs_view(a7@) =~= seq!["-c"@, "mv -f "@ + home@ + "/.zshrc "@ + home@ + "/.zshrc.user 2>/dev/null || true"@]);
    let a8: [&str; 4] = ["-q", "-P", home, ZSHRC_URL];
    let c8 = normal_command("wget", a8.as_slice(), "Downloading XeroLinux ZSH configuration...");
    assert(strs_view(a8@) =~= seq!["-q"@, "-P"@, home@, ZSHRC_URL@]);
    let mut konsole = "sed -i 's|Command=/bin/bash|Command=/bin/zsh|g' ".to_owned();
    konsole.append(home);
    konsole.append("/.local/share/konsole/XeroLinux.profile 2>/dev/null || true");
    let a9: [&str; 2] = ["-c", konsole.as_str()];
    let c9 = normal_command("sh", a9.as_slice(), "Updating Konsole profile to use ZSH...");
    assert(strs_view(a9@) =~= seq![
        "-c"@,
        "sed -i 's|Command=/bin/bash|Command=/bin/zsh|g' "@ + home@ + "/.local/share/konsole/XeroLinux.profile 2>/dev/null || true"@,
    ]);
    let a10: [&str; 3] = [user, "-s", "/bin/zsh"];
    let c10 = privileged_command("chsh", a10.as_slice(), "Setting ZSH as default shell...");
    assert(strs_view(a10@) =~= seq![user@, "-s"@, "/bin/zsh"@]);
    let s = CommandSequence::new().then_run(c1).then_run(c2).then_run(c3).then_run(c4).then_run(c5)
        .then_run(c6).then_run(c7).then_run(c8).then_run(c9).then_run(c10).build();
    assert(sequence_spec(s) =~= zsh_spec(home@, user@));
    s
}

/// Docker for the user `user`: the engine and tools, the service, the
/// `docker` group, and the user added to it.
pub open spec fn docker_spec(user: Seq<char>) -> Seq<CommandSpec> {
    seq![
        aur_install_spec(seq!["docker"@, "docker-compose"@, "docker-buildx"@], "Installing Docker engine and tools..."@),
        run_spec(CommandType::Privileged, "systemctl"@, seq!["enable"@, "--now"@, "docker.service"@], "Enabling Docker service..."@),
        run_spec(CommandType::Privileged, "groupadd"@, seq!["-f"@, "docker"@], "Ensuring docker group exists..."@),
        run_spec(CommandType::Privileged, "usermod"@, seq!["-aG"@, "docker"@, user], "Adding your user to docker group..."@),
    ]
}

/// Commands setting up Docker for `user` (see `docker_spec`).
pub fn build_docker_commands(user: &str) -> (r: CommandSequence)
    ensures
        sequence_spec(r) == docker_spec(user@),
{
    let a1: [&str; 3] = ["docker", "docker-compose", "docker-buildx"];
    let c1 = aur_install(a1.as_slice(), "Installing Docker engine and tools...");
    assert(strs_view(a1@) =~= seq!["docker"@, "docker-compose"@, "docker-buildx"@]);
    let a2: [&str; 3] = ["enable", "--now", "docker.service"];
    let c2 = privileged_command("systemctl", a2.as_slice(), "Enabling Docker service...");
    assert(strs_view(a2@) =~= seq!["enable"@, "--now"@, "docker.service"@]);
    let a3: [&str; 2] = ["-f", "docker"];
    let c3 = privileged_command("groupadd", a3.as_slice(), "Ensuring docker group exists...");
    assert(strs_view(a3@) =~= seq!["-f"@, "docker"@]);
    let a4: [&str; 3] = ["-aG", "docker", user];
    let c4 = privileged_command("usermod", a4.as_slice(), "Adding your user to docker group...");
    assert(strs_view(a4@) =~= seq!["-aG"@, "docker"@, user@]);
    let s = CommandSequence::new().then_run(c1).then_run(c2).then_run(c3).then_run(c4).build();
    assert(sequence_spec(s) =~= docker_spec(user@));
    s
}

/// Layan KDE theme update in `home`: cloned, installed, then removed.
pub open spec fn layan_spec(home: Seq<char>) -> Seq<CommandSpec> {
    seq![
        run_spec(
            CommandType::Normal,
            "git"@,
            seq!["clone"@, "--depth"@, "1"@, "https://github.com/vinceliuice/Layan-kde.git"@, home + "/Layan-kde"@],
            "Downloading Layan KDE theme..."@,
        ),
        run_spec(
            CommandType::Privileged,
            "sh"@,
            seq!["-c"@, "cd "@ + home + "/Layan-kde && sh install.sh"@],
            "Installing Layan KDE theme..."@,
        ),
        run_spec(CommandType::Normal, "rm"@, seq!["-rf"@, home + "/Layan-kde"@], "Cleaning up KDE theme files..."@),
    ]
}

/// Commands updating the Layan KDE theme from `home` (see `layan_spec`).
pub fn build_layan_commands(home: &str) -> (r: CommandSequence)
    ensures
        sequence_spec(r) == layan_spec(home@),
{
    let mut dir = home.to_owned();
    dir.append("/Layan-kde");
    let a1: [&str; 5] = ["clone", "--depth", "1", "https://github.com/vinceliuice/Layan-kde.git", dir.as_str()];
    let c1 = normal_command("git", a1.as_slice(), "Downloading Layan KDE theme...");
    assert(strs_view(a1@) =~= seq!["clone"@, "--depth"@, "1"@, "https://github.com/vinceliuice/Layan-kde.git"@, home@ + "/Layan-kde"@]);
    let mut line = "cd ".to_owned();
    line.append(home);
    line.append("/Layan-kde && sh install.sh");
    let a2: [&str; 2] = ["-c", line.as_str()];
    let c2 = privileged_command("sh", a2.as_slice(), "Installing Layan KDE theme...");
    assert(strs_view(a2@) =~= seq!["-c"@, "cd "@ + home@ + "/Layan-kde && sh install.sh"@]);
    let a3: [&str; 2] = ["-rf", dir.as_str()];
    let c3 = normal_command("rm", a3.as_slice(), "Cleaning up KDE theme files...");
    assert(strs_view(a3@) =~= seq!["-rf"@, home@ + "/Layan-kde"@]);
    let s = CommandSequence::new().then_run(c1).then_run(c2).then_run(c3).build();
    assert(sequence_spec(s) =~= layan_spec(home@));
    s
}

} // verus!
