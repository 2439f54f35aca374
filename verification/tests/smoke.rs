use heim::cpu::count::logical_count;
use heim::host::{boot_time, uptime};
use heim::virt::{detect_init_env, detect_wsl, Virtualization};

#[test]
fn smoke_cpu_logical_count() {
    let cpuinfo = b"processor\t: 0\nmodel name\t: x\nprocessor\t: 1\n";
    let count = logical_count(None, Some(cpuinfo), None).unwrap();

    assert!(count > 0);
}

#[test]
fn smoke_uptime() {
    let t = uptime(b"12345.67 40000.00\n").unwrap();

    assert!(t.ns > 0);
}

#[test]
fn smoke_boot_time() {
    let t = boot_time(b"cpu  1 2 3 4\nbtime 1611230000\nprocesses 9\n").unwrap();

    assert!(t.ns > 0);
}

#[test]
fn test_wsl_1() {
    let res = detect_wsl(b"Microsoft Windows Subsystem for Linux");

    assert_eq!(res, Ok(Virtualization::Wsl));
}

#[test]
fn test_wsl_2() {
    let res = detect_wsl(b"Microsoft WSL");

    assert_eq!(res, Ok(Virtualization::Wsl));
}

#[test]
fn test_init_env() {
    let res = detect_init_env(b"LANG=C\0container=podman\0USER=root");

    assert_eq!(res, Ok(Virtualization::Podman))
}
