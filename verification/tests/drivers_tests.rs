use xero_toolkit::drivers::{asus_rog_commands, gpu_driver_commands, DriverError, NVIDIA_SETUP_SCRIPT};
use xero_toolkit::servicing::{mirrorlist_commands, vm_guest_commands, DETECTION_FAILED_MESSAGE, UNSUPPORTED_VIRT_MESSAGE};

fn s(v: &[&str]) -> Vec<String> {
    v.iter().map(|x| x.to_string()).collect()
}

#[test]
fn nvidia_choices() {
    assert_eq!(gpu_driver_commands(&s(&["nvidia_closed", "nvidia_open"]), Some("paru")).err(), Some(DriverError::BothNvidiaDrivers));
    assert_eq!(gpu_driver_commands(&s(&["nvidia_open"]), None).err(), Some(DriverError::NoAurHelper));
    assert!(gpu_driver_commands(&vec![], Some("paru")).unwrap().is_empty());
    let cmds = gpu_driver_commands(&s(&["nvidia_open"]), Some("yay")).unwrap();
    assert_eq!(cmds.len(), 2);
    assert_eq!(cmds[0].command, "yay");
    assert!(cmds[0].args.contains(&"nvidia-open-dkms".to_string()));
    assert!(!cmds[0].args.contains(&"nvidia-dkms".to_string()));
    assert_eq!(cmds[1].command, "sudo");
    assert_eq!(cmds[1].args, s(&["bash", NVIDIA_SETUP_SCRIPT]));
    let closed = gpu_driver_commands(&s(&["nvidia_closed"]), Some("paru")).unwrap();
    assert_eq!(closed[0].args.len(), 15);
    assert!(closed[0].args.contains(&"nvidia-dkms".to_string()));
    assert_eq!(DriverError::NoAurHelper.message(), "\r\nERROR: No AUR helper detected (paru or yay required).\r\n");
}

#[test]
fn asus_tools() {
    assert_eq!(asus_rog_commands(None).err(), Some(DriverError::NoAurHelper));
    let cmds = asus_rog_commands(Some("paru")).unwrap();
    assert_eq!(cmds[0].command_line(), "paru -S --noconfirm --needed rog-control-center asusctl supergfxctl");
    assert_eq!(cmds[1].command_line(), "sudo systemctl enable --now asusd supergfxd");
}

#[test]
fn vm_guest_utilities() {
    assert_eq!(vm_guest_commands(None).err(), Some(DETECTION_FAILED_MESSAGE));
    assert_eq!(vm_guest_commands(Some("none\n")).err(), Some(UNSUPPORTED_VIRT_MESSAGE));
    let vb = vm_guest_commands(Some("oracle\n")).unwrap().into_commands();
    assert_eq!(vb[0].args, s(&["-S", "--needed", "--noconfirm", "virtualbox-guest-utils"]));
    let kvm = vm_guest_commands(Some("kvm")).unwrap().into_commands();
    assert_eq!(kvm[0].description, "Installing KVM/QEMU guest agents...");
}

#[test]
fn mirrorlists() {
    let all = mirrorlist_commands(false, &s(&["chaotic"])).into_commands();
    assert_eq!(all.len(), 4);
    assert_eq!(all[0].description, "Installing rate-mirrors utility...");
    assert_eq!(all[3].args, s(&["-Syy"]));
    let plain = mirrorlist_commands(true, &vec![]).into_commands();
    assert_eq!(plain.len(), 2);
    assert_eq!(plain[0].description, "Updating Arch mirrorlist...");
}
