//! Mounted disk partitions: device, mount point, file system and raw
//! mount flags, built from the plain strings the platform's mount table
//! reports.

use vstd::prelude::*;

use crate::parse::bytes_eq;
use vstd::string::StringSliceAdditionalSpecFns;

verus! {

/// The file systems the reader recognises; anything else is carried
/// through verbatim.
#[derive(Clone, Debug, PartialEq, Eq)]
pub enum FileSystem {
    Ext2,
    Ext3,
    Ext4,
    VFat,
    Ntfs,
    Zfs,
    Hfs,
    HfsPlus,
    Apfs,
    FuseBlk,
    Exfat,
    F2fs,
    Jfs,
    Btrfs,
    Minix,
    Nilfs,
    Xfs,
    Other(String),
}

/// Which recognised file system a mount-table type string names; an
/// unrecognised one names none.
pub open spec fn filesystem_of(s: Seq<u8>) -> Option<FileSystem> {
    if s == ("ext2").spec_bytes() {
        Some(FileSystem::Ext2)
    } else if s == ("ext3").spec_bytes() {
        Some(FileSystem::Ext3)
    } else if s == ("ext4").spec_bytes() {
        Some(FileSystem::Ext4)
    } else if s == ("vfat").spec_bytes() {
        Some(FileSystem::VFat)
    } else if s == ("ntfs").spec_bytes() {
        Some(FileSystem::Ntfs)
    } else if s == ("zfs").spec_bytes() {
        Some(FileSystem::Zfs)
    } else if s == ("hfs").spec_bytes() {
        Some(FileSystem::Hfs)
    } else if s == ("hfsplus").spec_bytes() {
        Some(FileSystem::HfsPlus)
    } else if s == ("apfs").spec_bytes() {
        Some(FileSystem::Apfs)
    } else if s == ("fuseblk").spec_bytes() {
        Some(FileSystem::FuseBlk)
    } else if s == ("exfat").spec_bytes() {
        Some(FileSystem::Exfat)
    } else if s == ("f2fs").spec_bytes() {
        Some(FileSystem::F2fs)
    } else if s == ("jfs").spec_bytes() {
        Some(FileSystem::Jfs)
    } else if s == ("btrfs").spec_bytes() {
        Some(FileSystem::Btrfs)
    } else if s == ("minix").spec_bytes() {
        Some(FileSystem::Minix)
    } else if s == ("nilfs").spec_bytes() {
        Some(FileSystem::Nilfs)
    } else if s == ("xfs").spec_bytes() {
        Some(FileSystem::Xfs)
    } else {
        None
    }
}

impl FileSystem {
    /// Reads a mount-table type string.  Never fails: an unrecognised
    /// type is carried through as `Other`.
    pub fn from_str(s: &str) -> (r: FileSystem)
        ensures
            filesystem_of(s.spec_bytes()) matches Some(fs) ==> r == fs,
            filesystem_of(s.spec_bytes()) is None ==> (r matches FileSystem::Other(o) && o@
                == s@),
    {
        let b = s.as_bytes();
        if bytes_eq(b, "ext2".as_bytes()) {
            FileSystem::Ext2
        } else if bytes_eq(b, "ext3".as_bytes()) {
            FileSystem::Ext3
        } else if bytes_eq(b, "ext4".as_bytes()) {
            FileSystem::Ext4
        } else if bytes_eq(b, "vfat".as_bytes()) {
            FileSystem::VFat
        } else if bytes_eq(b, "ntfs".as_bytes()) {
            FileSystem::Ntfs
        } else if bytes_eq(b, "zfs".as_bytes()) {
            FileSystem::Zfs
        } else if bytes_eq(b, "hfs".as_bytes()) {
            FileSystem::Hfs
        } else if bytes_eq(b, "hfsplus".as_bytes()) {
            FileSystem::HfsPlus
        } else if bytes_eq(b, "apfs".as_bytes()) {
            FileSystem::Apfs
        } else if bytes_eq(b, "fuseblk".as_bytes()) {
            FileSystem::FuseBlk
        } else if bytes_eq(b, "exfat".as_bytes()) {
            FileSystem::Exfat
        } else if bytes_eq(b, "f2fs".as_bytes()) {
            FileSystem::F2fs
        } else if bytes_eq(b, "jfs".as_bytes()) {
            FileSystem::Jfs
        } else if bytes_eq(b, "btrfs".as_bytes()) {
            FileSystem::Btrfs
        } else if bytes_eq(b, "minix".as_bytes()) {
            FileSystem::Minix
        } else if bytes_eq(b, "nilfs".as_bytes()) {
            FileSystem::Nilfs
        } else if bytes_eq(b, "xfs".as_bytes()) {
            FileSystem::Xfs
        } else {
            FileSystem::Other(s.to_owned())
        }
    }

    /// A recognised file system is device-backed; the fallback is not
    /// known to be.
    pub fn is_physical(&self) -> (r: bool)
        ensures
            r == !(self is Other),
    {
        match self {
            FileSystem::Other(_) => false,
            _ => true,
        }
    }
}

/// One mounted partition, as plain values.
#[derive(Clone, Debug, PartialEq, Eq)]
pub struct Partition {
    pub device: Option<String>,
    pub fs: FileSystem,
    pub mount_point: String,
    pub flags: u32,
}

impl Partition {
    /// Builds a partition record from the strings and flags the mount
    /// table reports for it.
    pub fn from_parts(device: Option<String>, fs_type: &str, mount_point: String, flags: u32) -> (r:
        Partition)
        ensures
            r.device == device,
            r.mount_point == mount_point,
            r.flags == flags,
            filesystem_of(fs_type.spec_bytes()) matches Some(fs) ==> r.fs == fs,
            filesystem_of(fs_type.spec_bytes()) is None ==> (r.fs matches FileSystem::Other(o)
                && o@ == fs_type@),
    {
        Partition { device, fs: FileSystem::from_str(fs_type), mount_point, flags }
    }

    pub fn device(&self) -> (r: Option<&String>)
        ensures
            match r {
                Some(d) => self.device matches Some(x) && d == &x,
                None => self.device is None,
            },
    {
        self.device.as_ref()
    }

    pub fn mount_point(&self) -> (r: &String)
        ensures
            r == &self.mount_point,
    {
        &self.mount_point
    }

    pub fn file_system(&self) -> (r: &FileSystem)
        ensures
            r == &self.fs,
    {
        &self.fs
    }

    pub fn raw_flags(&self) -> (r: u32)
        ensures
            r == self.flags,
    {
        self.flags
    }
}

/// The partitions whose file system is device-backed.
pub open spec fn physical_of(s: Seq<Partition>) -> Seq<Partition>
    decreases s.len(),
{
    if s.len() == 0 {
        Seq::empty()
    } else {
        physical_of(s.drop_last()) + (if !(s.last().fs is Other) {
            seq![s.last()]
        } else {
            Seq::empty()
        })
    }
}

/// Keeps the physical partitions only: those mounted from a recognised,
/// device-backed file system.
pub fn partitions_physical(parts: Vec<Partition>) -> (r: Vec<Partition>)
    ensures
        r@ == physical_of(parts@),
{
    let ghost orig = parts@;
    let mut stack = parts;
    let mut rev: Vec<Partition> = Vec::new();
    proof {
        assert(physical_of(stack@) + rev@.reverse() =~= physical_of(orig));
    }
    while stack.len() > 0
        invariant
            physical_of(orig) == physical_of(stack@) + rev@.reverse(),
        decreases stack@.len(),
    {
        let ghost old_stack = stack@;
        let ghost old_rev = rev@;
        let p = stack.pop().unwrap();
        let keep = p.file_system().is_physical();
        if keep {
            rev.push(p);
            proof {
                assert(physical_of(old_stack) =~= physical_of(stack@) + seq![old_stack.last()]);
                assert(rev@.reverse() =~= seq![old_stack.last()] + old_rev.reverse());
                assert(physical_of(stack@) + (seq![old_stack.last()] + old_rev.reverse()) =~= (
                physical_of(stack@) + seq![old_stack.last()]) + old_rev.reverse());
            }
        } else {
            proof {
                assert(physical_of(old_stack) =~= physical_of(stack@));
            }
        }
    }
    proof {
        assert(physical_of(stack@) + rev@.reverse() =~= rev@.reverse());
    }
    let mut out: Vec<Partition> = Vec::new();
    proof {
        assert(out@ + rev@.reverse() =~= rev@.reverse());
    }
    while rev.len() > 0
        invariant
            physical_of(orig) == out@ + rev@.reverse(),
        decreases rev@.len(),
    {
        let ghost old_rev = rev@;
        let ghost old_out = out@;
        let p = rev.pop().unwrap();
        out.push(p);
        proof {
            assert(old_rev.reverse() =~= seq![old_rev.last()] + rev@.reverse());
            assert(out@ =~= old_out.push(old_rev.last()));
            assert(out@ + rev@.reverse() =~= old_out + old_rev.reverse());
        }
    }
    proof {
        assert(out@ + rev@.reverse() =~= out@);
    }
    out
}

} // verus!
