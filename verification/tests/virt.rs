use heim::virt::{
    detect_cgroups, detect_container, detect_openvz, detect_systemd_container, detect_wsl,
    try_guess_container, Virtualization,
};

#[test]
fn container_names_map_to_their_managers() {
    assert_eq!(try_guess_container(b"lxc"), Ok(Virtualization::Lxc));
    assert_eq!(try_guess_container(b"lxc-libvirt"), Ok(Virtualization::LxcLibvirt));
    assert_eq!(try_guess_container(b"systemd-nspawn"), Ok(Virtualization::SystemdNspawn));
    assert_eq!(try_guess_container(b"docker"), Ok(Virtualization::Docker));
    assert_eq!(try_guess_container(b"podman"), Ok(Virtualization::Podman));
    assert_eq!(try_guess_container(b"rkt"), Ok(Virtualization::Rkt));
    assert_eq!(try_guess_container(b"wsl"), Ok(Virtualization::Wsl));
    assert_eq!(try_guess_container(b"something-else"), Ok(Virtualization::Unknown));
}

#[test]
fn cgroup_list_names_the_first_marker() {
    let cgroup = b"12:pids:/init.scope\n11:memory:/docker/abc\n10:cpu:/lxc/x\n";
    assert_eq!(detect_cgroups(cgroup), Ok(Virtualization::Docker));
    assert_eq!(detect_cgroups(b"12:pids:/init.scope\n"), Err(()));
}

#[test]
fn openvz_needs_the_inside_marker_only() {
    assert_eq!(detect_openvz(true, false), Ok(Virtualization::OpenVz));
    assert_eq!(detect_openvz(true, true), Err(()));
    assert_eq!(detect_openvz(false, false), Err(()));
}

#[test]
fn systemd_drop_in_names_the_manager() {
    assert_eq!(detect_systemd_container(b"docker"), Ok(Virtualization::Docker));
    assert_eq!(detect_systemd_container(b"???"), Ok(Virtualization::Unknown));
}

#[test]
fn kernel_release_without_markers_is_no_subsystem() {
    assert_eq!(detect_wsl(b"5.10.0-generic"), Err(()));
}

#[test]
fn detection_tries_each_marker_in_turn() {
    assert_eq!(
        detect_container(true, false, None, None, None, None),
        Ok(Virtualization::OpenVz)
    );
    assert_eq!(
        detect_container(false, false, Some(b"4.4.0-Microsoft"), None, None, None),
        Ok(Virtualization::Wsl)
    );
    assert_eq!(
        detect_container(false, false, Some(b"5.10.0"), Some(b"podman"), None, None),
        Ok(Virtualization::Podman)
    );
    assert_eq!(
        detect_container(
            false,
            false,
            None,
            None,
            Some(b"PATH=/bin\0container=rkt\0"),
            None
        ),
        Ok(Virtualization::Rkt)
    );
    assert_eq!(
        detect_container(false, false, None, None, None, Some(b"11:memory:/lxc/a\n")),
        Ok(Virtualization::Lxc)
    );
    assert_eq!(detect_container(false, false, None, None, None, None), Err(()));
}
