use xero_toolkit::command::{Command, CommandType};
use xero_toolkit::recipes::{
    build_cuda_commands, build_kvm_commands, build_obs_commands, build_openrazer_commands,
    build_docker_commands, build_layan_commands, build_pkg_manager_commands, build_podman_commands,
    build_zsh_commands, has_id, nix_install_command,
    NIX_MULTI_USER, NIX_SINGLE_USER,
};

fn s(v: &[&str]) -> Vec<String> {
    v.iter().map(|x| x.to_string()).collect()
}

fn descriptions(v: &[Command]) -> Vec<String> {
    v.iter().map(|c| c.description.clone()).collect()
}

#[test]
fn package_managers_in_fixed_order() {
    let cmds = build_pkg_manager_commands(&s(&["flatseal", "octopi"])).into_commands();
    assert_eq!(cmds.len(), 2);
    assert_eq!(cmds[0].command_type, CommandType::Aur);
    assert_eq!(cmds[0].args, s(&["-S", "--noconfirm", "--needed", "octopi"]));
    assert_eq!(cmds[1].program, "flatpak");
    assert_eq!(cmds[1].args, s(&["install", "-y", "com.github.tchx84.Flatseal"]));
    assert!(build_pkg_manager_commands(&vec![]).is_empty());
}

#[test]
fn openrazer_for_user() {
    let cmds = build_openrazer_commands(&s(&["razergenie"]), "alice").into_commands();
    assert_eq!(descriptions(&cmds), s(&["Installing OpenRazer drivers...", "Adding user to plugdev group...", "Installing RazerGenie frontend..."]));
    assert_eq!(cmds[1].args, s(&["-aG", "plugdev", "alice"]));
}

#[test]
fn obs_with_virtual_camera() {
    let cmds = build_obs_commands(&s(&["v4l2"]), true).into_commands();
    assert_eq!(cmds.len(), 4);
    assert_eq!(cmds[0].args, s(&["install", "-y", "com.obsproject.Studio"]));
    assert_eq!(cmds[1].args, s(&["-S", "--noconfirm", "--needed", "v4l2loopback-dkms", "v4l2loopback-utils"]));
    assert_eq!(cmds[2].command_type, CommandType::Privileged);
    assert_eq!(build_obs_commands(&vec![], true).into_commands().len(), 1);
    // Where OBS itself is one of the choices, nothing is installed unasked.
    assert!(build_obs_commands(&vec![], false).is_empty());
    let only_obs = build_obs_commands(&s(&["obs"]), false).into_commands();
    assert_eq!(only_obs.len(), 1);
    assert_eq!(only_obs[0].description, "Installing OBS-Studio...");
}

#[test]
fn podman_and_kvm() {
    assert_eq!(build_podman_commands(&vec![]).into_commands().len(), 2);
    let p = build_podman_commands(&s(&["podman_desktop"])).into_commands();
    assert_eq!(p[2].args, s(&["install", "-y", "flathub", "io.podman_desktop.PodmanDesktop"]));
    let k = build_kvm_commands(true, false).into_commands();
    assert_eq!(descriptions(&k), s(&["Removing conflicting iptables...", "Installing virtualization packages...", "Enabling nested virtualization...", "Restarting libvirtd service..."]));
    assert_eq!(build_kvm_commands(false, false).into_commands().len(), 3);
    assert_eq!(build_kvm_commands(true, true).into_commands().len(), 5);
}

#[test]
fn cuda_and_nix_choices() {
    assert!(build_cuda_commands(&vec![]).is_none());
    let c = build_cuda_commands(&s(&["cuda-12.4"])).unwrap().into_commands();
    assert_eq!(c[0].args, s(&["-S", "--noconfirm", "--needed", "cuda-12.4"]));
    assert_eq!(c[0].description, "Installing cuda-12.4...");
    assert_eq!(nix_install_command(&vec![]), None);
    assert_eq!(nix_install_command(&s(&["multi-user"])), Some(NIX_MULTI_USER));
    assert_eq!(nix_install_command(&s(&["single-user"])), Some(NIX_SINGLE_USER));
    assert!(has_id(&s(&["a", "b"]), "b"));
    assert!(!has_id(&s(&["a", "b"]), "c"));
}

#[test]
fn zsh_setup_for_home_and_user() {
    let cmds = build_zsh_commands("/home/alice", "alice").into_commands();
    assert_eq!(cmds.len(), 10);
    assert_eq!(cmds[3].args, s(&["clone", "https://github.com/zsh-users/zsh-completions", "/home/alice/.oh-my-zsh/custom/plugins/zsh-completions"]));
    assert_eq!(cmds[6].args, s(&["-c", "mv -f /home/alice/.zshrc /home/alice/.zshrc.user 2>/dev/null || true"]));
    assert_eq!(cmds[7].args[2], "/home/alice");
    assert_eq!(cmds[9].command_type, CommandType::Privileged);
    assert_eq!(cmds[9].program, "chsh");
    assert_eq!(cmds[9].args, s(&["alice", "-s", "/bin/zsh"]));
}

#[test]
fn docker_and_layan() {
    let d = build_docker_commands("bob").into_commands();
    assert_eq!(d.len(), 4);
    assert_eq!(d[3].args, s(&["-aG", "docker", "bob"]));
    let l = build_layan_commands("/home/bob").into_commands();
    assert_eq!(l[0].args[4], "/home/bob/Layan-kde");
    assert_eq!(l[1].args, s(&["-c", "cd /home/bob/Layan-kde && sh install.sh"]));
    assert_eq!(l[2].args, s(&["-rf", "/home/bob/Layan-kde"]));
}
