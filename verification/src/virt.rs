//! Container detection: which container manager, if any, the host runs
//! under, decided from the marker files the runtime could read.

use vstd::prelude::*;

use crate::parse::{contains_bytes, contains_seq, lines_of, parts_of, split_lines, split_parts};
use vstd::string::StringSliceAdditionalSpecFns;

verus! {

/// The virtualization technologies the detector can name.
#[derive(Clone, Copy, Debug, PartialEq, Eq, Structural)]
pub enum Virtualization {
    Lxc,
    LxcLibvirt,
    SystemdNspawn,
    Docker,
    Podman,
    Rkt,
    Wsl,
    OpenVz,
    /// A container was detected, but not which one.
    Unknown,
}

/// Which container a manager name denotes; an unrecognised name still
/// means "some container".
pub open spec fn container_of(v: Seq<u8>) -> Virtualization {
    if v == ("lxc").spec_bytes() {
        Virtualization::Lxc
    } else if v == ("lxc-libvirt").spec_bytes() {
        Virtualization::LxcLibvirt
    } else if v == ("systemd-nspawn").spec_bytes() {
        Virtualization::SystemdNspawn
    } else if v == ("docker").spec_bytes() {
        Virtualization::Docker
    } else if v == ("podman").spec_bytes() {
        Virtualization::Podman
    } else if v == ("rkt").spec_bytes() {
        Virtualization::Rkt
    } else if v == ("wsl").spec_bytes() {
        Virtualization::Wsl
    } else {
        Virtualization::Unknown
    }
}

/// Names the container a manager-name string denotes.
pub fn try_guess_container(value: &[u8]) -> (r: Result<Virtualization, ()>)
    ensures
        r == Ok::<Virtualization, ()>(container_of(value@)),
{
    if crate::parse::bytes_eq(value, "lxc".as_bytes()) {
        Ok(Virtualization::Lxc)
    } else if crate::parse::bytes_eq(value, "lxc-libvirt".as_bytes()) {
        Ok(Virtualization::LxcLibvirt)
    } else if crate::parse::bytes_eq(value, "systemd-nspawn".as_bytes()) {
        Ok(Virtualization::SystemdNspawn)
    } else if crate::parse::bytes_eq(value, "docker".as_bytes()) {
        Ok(Virtualization::Docker)
    } else if crate::parse::bytes_eq(value, "podman".as_bytes()) {
        Ok(Virtualization::Podman)
    } else if crate::parse::bytes_eq(value, "rkt".as_bytes()) {
        Ok(Virtualization::Rkt)
    } else if crate::parse::bytes_eq(value, "wsl".as_bytes()) {
        Ok(Virtualization::Wsl)
    } else {
        Ok(Virtualization::Unknown)
    }
}

/// Whether a kernel release line names the Windows subsystem.
pub open spec fn wsl_marker(line: Seq<u8>) -> bool {
    contains_seq(line, ("Microsoft").spec_bytes()) || contains_seq(line, ("WSL").spec_bytes())
}

/// Detects the Windows subsystem from the kernel release line.
pub fn detect_wsl(line: &[u8]) -> (r: Result<Virtualization, ()>)
    ensures
        wsl_marker(line@) ==> r == Ok::<Virtualization, ()>(Virtualization::Wsl),
        !wsl_marker(line@) ==> r == Err::<Virtualization, ()>(()),
{
    if contains_bytes(line, "Microsoft".as_bytes()) {
        Ok(Virtualization::Wsl)
    } else if contains_bytes(line, "WSL".as_bytes()) {
        Ok(Virtualization::Wsl)
    } else {
        Err(())
    }
}

/// Detects the container named in the service manager's drop-in file.
pub fn detect_systemd_container(line: &[u8]) -> (r: Result<Virtualization, ()>)
    ensures
        r == Ok::<Virtualization, ()>(container_of(line@)),
{
    try_guess_container(line)
}

/// What scanning the control-group list concludes: the first line that
/// carries a manager's marker names it.
pub open spec fn cgroup_verdict(ls: Seq<Seq<u8>>) -> Result<Virtualization, ()>
    decreases ls.len(),
{
    if ls.len() == 0 {
        Err(())
    } else {
        let l = ls[0];
        if contains_seq(l, ("lxc").spec_bytes()) {
            Ok(Virtualization::Lxc)
        } else if contains_seq(l, ("docker").spec_bytes()) {
            Ok(Virtualization::Docker)
        } else if contains_seq(l, ("rkt").spec_bytes()) {
            Ok(Virtualization::Rkt)
        } else {
            cgroup_verdict(ls.subrange(1, ls.len() as int))
        }
    }
}

/// Detects a container from the control-group list's lines.
pub fn detect_cgroups(contents: &[u8]) -> (r: Result<Virtualization, ()>)
    ensures
        r == cgroup_verdict(lines_of(contents@)),
{
    let ls = split_lines(contents);
    let ghost lv = lines_of(contents@);
    let lxc_kw = "lxc".as_bytes();
    let docker_kw = "docker".as_bytes();
    let rkt_kw = "rkt".as_bytes();
    let mut i: usize = 0;
    proof {
        assert(lv.subrange(0, lv.len() as int) =~= lv);
    }
    while i < ls.len()
        invariant
            0 <= i <= lv.len(),
            lv == lines_of(contents@),
            ls@.map_values(|x: Vec<u8>| x@) == lv,
            lxc_kw@ == ("lxc").spec_bytes(),
            docker_kw@ == ("docker").spec_bytes(),
            rkt_kw@ == ("rkt").spec_bytes(),
            cgroup_verdict(lv) == cgroup_verdict(lv.subrange(i as int, lv.len() as int)),
        decreases lv.len() - i,
    {
        let ghost rest = lv.subrange(i as int, lv.len() as int);
        proof {
            assert(rest[0] == lv[i as int]);
            assert(ls@[i as int]@ == lv[i as int]);
            assert(rest.subrange(1, rest.len() as int) =~= lv.subrange(
                i as int + 1,
                lv.len() as int,
            ));
        }
        let line = ls[i].as_slice();
        if contains_bytes(line, lxc_kw) {
            return Ok(Virtualization::Lxc);
        } else if contains_bytes(line, docker_kw) {
            return Ok(Virtualization::Docker);
        } else if contains_bytes(line, rkt_kw) {
            return Ok(Virtualization::Rkt);
        }
        i = i + 1;
    }
    proof {
        assert(lv.subrange(lv.len() as int, lv.len() as int) =~= Seq::<Seq<u8>>::empty());
    }
    Err(())
}

/// The kernel exposes one bookkeeping directory inside and outside that
/// hypervisor's containers, and a second one outside only: the first
/// present without the second means the caller is inside.
pub fn detect_openvz(has_vz_dir: bool, has_bc_dir: bool) -> (r: Result<Virtualization, ()>)
    ensures
        has_vz_dir && !has_bc_dir ==> r == Ok::<Virtualization, ()>(Virtualization::OpenVz),
        !(has_vz_dir && !has_bc_dir) ==> r == Err::<Virtualization, ()>(()),
{
    if has_vz_dir && !has_bc_dir {
        Ok(Virtualization::OpenVz)
    } else {
        Err(())
    }
}

/// What the init process's environment says: the first variable named
/// "container" names the manager.
pub open spec fn init_env_verdict(vars: Seq<Seq<u8>>) -> Result<Virtualization, ()>
    decreases vars.len(),
{
    if vars.len() == 0 {
        Err(())
    } else {
        let kv = parts_of(vars[0], '=' as u8);
        if kv[0] == ("container").spec_bytes() && kv.len() >= 2 {
            Ok(container_of(kv[1]))
        } else {
            init_env_verdict(vars.subrange(1, vars.len() as int))
        }
    }
}

/// Detects the container named in the init process's environment block:
/// NUL-separated variables, one of which may be "container".
pub fn detect_init_env(contents: &[u8]) -> (r: Result<Virtualization, ()>)
    ensures
        r == init_env_verdict(parts_of(contents@, 0)),
{
    let vars = split_parts(contents, 0);
    let ghost vv = parts_of(contents@, 0);
    let container_kw = "container".as_bytes();
    let mut i: usize = 0;
    proof {
        assert(vv.subrange(0, vv.len() as int) =~= vv);
    }
    while i < vars.len()
        invariant
            0 <= i <= vv.len(),
            vv == parts_of(contents@, 0),
            vars@.map_values(|x: Vec<u8>| x@) == vv,
            container_kw@ == ("container").spec_bytes(),
            init_env_verdict(vv) == init_env_verdict(vv.subrange(i as int, vv.len() as int)),
        decreases vv.len() - i,
    {
        let ghost rest = vv.subrange(i as int, vv.len() as int);
        proof {
            assert(rest[0] == vv[i as int]);
            assert(vars@[i as int]@ == vv[i as int]);
            assert(rest.subrange(1, rest.len() as int) =~= vv.subrange(
                i as int + 1,
                vv.len() as int,
            ));
        }
        let var = vars[i].as_slice();
        let kv = split_parts(var, '=' as u8);
        proof {
            crate::parse::lemma_parts_with_nonempty(Seq::empty(), vv[i as int], '=' as u8);
            assert(kv@.len() == parts_of(vv[i as int], '=' as u8).len());
            assert(kv@[0]@ == parts_of(vv[i as int], '=' as u8)[0]);
        }
        if crate::parse::bytes_eq(kv[0].as_slice(), container_kw) && kv.len() >= 2 {
            proof {
                assert(kv@[1]@ == parts_of(vv[i as int], '=' as u8)[1]);
            }
            return try_guess_container(kv[1].as_slice());
        }
        i = i + 1;
    }
    proof {
        assert(vv.subrange(vv.len() as int, vv.len() as int) =~= Seq::<Seq<u8>>::empty());
    }
    Err(())
}

/// Detects which container manager the host runs under, trying each
/// marker in turn: the hypervisor's bookkeeping directories, the kernel
/// release line, the service manager's drop-in file, the init process's
/// environment, and last the control-group list.  `None` stands for a
/// marker file the runtime could not read.
pub fn detect_container(
    has_vz_dir: bool,
    has_bc_dir: bool,
    osrelease: Option<&[u8]>,
    systemd_file: Option<&[u8]>,
    environ: Option<&[u8]>,
    cgroup: Option<&[u8]>,
) -> (r: Result<Virtualization, ()>)
    ensures
        has_vz_dir && !has_bc_dir ==> r == Ok::<Virtualization, ()>(Virtualization::OpenVz),
        !(has_vz_dir && !has_bc_dir) ==> r == detect_after_openvz(
            match osrelease {
                Some(c) => Some(c@),
                None => None,
            },
            match systemd_file {
                Some(c) => Some(c@),
                None => None,
            },
            match environ {
                Some(c) => Some(c@),
                None => None,
            },
            match cgroup {
                Some(c) => Some(c@),
                None => None,
            },
        ),
{
    match detect_openvz(has_vz_dir, has_bc_dir) {
        Ok(v) => {
            return Ok(v);
        },
        Err(()) => {},
    }
    if let Some(line) = osrelease {
        match detect_wsl(line) {
            Ok(v) => {
                return Ok(v);
            },
            Err(()) => {},
        }
    }
    if let Some(line) = systemd_file {
        match detect_systemd_container(line) {
            Ok(v) => {
                return Ok(v);
            },
            Err(()) => {},
        }
    }
    if let Some(c) = environ {
        match detect_init_env(c) {
            Ok(v) => {
                return Ok(v);
            },
            Err(()) => {},
        }
    }
    if let Some(c) = cgroup {
        match detect_cgroups(c) {
            Ok(v) => {
                return Ok(v);
            },
            Err(()) => {},
        }
    }
    Err(())
}

/// The fallback chain after the hypervisor check has said no.
pub open spec fn detect_after_openvz(
    osrelease: Option<Seq<u8>>,
    systemd_file: Option<Seq<u8>>,
    environ: Option<Seq<u8>>,
    cgroup: Option<Seq<u8>>,
) -> Result<Virtualization, ()> {
    if osrelease matches Some(l) && wsl_marker(l) {
        Ok(Virtualization::Wsl)
    } else if systemd_file is Some {
        Ok(container_of(systemd_file.unwrap()))
    } else if environ is Some && init_env_verdict(parts_of(environ.unwrap(), 0)) is Ok {
        init_env_verdict(parts_of(environ.unwrap(), 0))
    } else if cgroup is Some && cgroup_verdict(lines_of(cgroup.unwrap())) is Ok {
        cgroup_verdict(lines_of(cgroup.unwrap()))
    } else {
        Err(())
    }
}

} // verus!
