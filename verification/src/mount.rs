//! The record shape both data sources are normalized into: one `Mount` per
//! eventual display row, whether it came from the kernel mount table or from
//! clustered-storage discovery.

use vstd::prelude::*;

verus! {

/// Id of the kernel block device backing a mount, the deduplication key for
/// ordinary filesystems.
#[derive(Clone, Copy, Debug, PartialEq, Eq, Structural)]
pub struct DeviceId {
    pub major: u32,
    pub minor: u32,
}

/// Inode usage figures, with the semantics of a statvfs-style call.
#[derive(Clone, Copy, Debug, PartialEq, Eq, Structural)]
pub struct Inodes {
    /// number of inodes
    pub files: u64,
    /// number of free inodes
    pub ffree: u64,
    /// number of free inodes for underprivileged users
    pub favail: u64,
}

impl Inodes {
    /// Number of inodes not available anymore; zero when the reported free
    /// count exceeds the total, so that the accessor is total.
    pub open spec fn spec_used(self) -> int {
        if self.favail <= self.files {
            self.files - self.favail
        } else {
            0
        }
    }

    pub fn used(&self) -> (r: u64)
        ensures
            r == self.spec_used(),
    {
        if self.favail <= self.files {
            self.files - self.favail
        } else {
            0
        }
    }
}

/// Block and inode usage figures of one mount or one storage target.
#[derive(Clone, Copy, Debug, PartialEq, Eq, Structural)]
pub struct Stats {
    /// block size in bytes
    pub bsize: u64,
    /// total number of blocks
    pub blocks: u64,
    /// number of used blocks
    pub bused: u64,
    /// number of free blocks
    pub bfree: u64,
    /// number of free blocks for underprivileged users
    pub bavail: u64,
    /// inode figures, when available
    pub inodes: Option<Inodes>,
}

/// The product of two block-count sized figures always fits the wider type.
proof fn lemma_u64_mul_fits_u128(a: u64, b: u64)
    ensures
        (a as int) * (b as int) <= u128::MAX as int,
{
    assert((a as int) * (b as int) <= (u64::MAX as int) * (u64::MAX as int))
        by (nonlinear_arith)
        requires
            a <= u64::MAX,
            b <= u64::MAX,
    ;
}

impl Stats {
    /// Total size in bytes.
    pub open spec fn spec_size(self) -> int {
        self.bsize * self.blocks
    }

    /// Bytes available to underprivileged users.
    pub open spec fn spec_available(self) -> int {
        self.bsize * self.bavail
    }

    /// Bytes used.
    pub open spec fn spec_used(self) -> int {
        self.bsize * self.bused
    }

    pub fn size(&self) -> (r: u128)
        ensures
            r == self.spec_size(),
    {
        proof { lemma_u64_mul_fits_u128(self.bsize, self.blocks); }
        (self.bsize as u128) * (self.blocks as u128)
    }

    pub fn available(&self) -> (r: u128)
        ensures
            r == self.spec_available(),
    {
        proof { lemma_u64_mul_fits_u128(self.bsize, self.bavail); }
        (self.bsize as u128) * (self.bavail as u128)
    }

    pub fn used(&self) -> (r: u128)
        ensures
            r == self.spec_used(),
    {
        proof { lemma_u64_mul_fits_u128(self.bsize, self.bused); }
        (self.bsize as u128) * (self.bused as u128)
    }
}

/// What is known about a mount's usage figures: the figures themselves, an
/// explicit "could not be statted" marker, or nothing (never attempted, or
/// the attempt failed for a reason other than reachability).
#[derive(Clone, Copy, Debug, PartialEq, Eq, Structural)]
pub enum StatsResult {
    Known(Stats),
    Unreachable,
    Absent,
}

/// Which data source a record stands for: an ordinary kernel mount, one
/// clustered-storage backend target, or the synthesized row aggregating a
/// whole clustered filesystem.
#[derive(Clone, Copy, Debug, PartialEq, Eq, Structural)]
pub enum MountKind {
    Ordinary,
    ClusterComponent,
    ClusterAggregate,
}

/// Identity of a mount as the mount table describes it.
#[derive(Debug)]
pub struct MountInfo {
    /// mount point id, when the table gives one
    pub id: Option<u32>,
    /// id of the parent mount, when the table gives one
    pub parent: Option<u32>,
    /// backing device
    pub dev: DeviceId,
    /// root of the mount within its filesystem
    pub root: String,
    /// where the filesystem is mounted
    pub mount_point: String,
    /// source device or filesystem designation
    pub fs: String,
    /// filesystem type tag; `"lustre"` marks cluster-managed rows
    pub fs_type: String,
    /// whether it is a bound mount
    pub bound: bool,
}

impl MountInfo {
    /// Whether the mount looks remote: the source designation carries a host
    /// part, or the type is one only network filesystems use. Same
    /// heuristics as the kernel mount-table readers apply.
    pub open spec fn spec_is_remote(self) -> bool {
        ||| crate::strings::seq_contains_char(self.fs@, ':')
        ||| (crate::strings::seq_is_prefix("//"@, self.fs@) && (self.fs_type@ == "cifs"@
            || self.fs_type@ == "smb3"@ || self.fs_type@ == "smbfs"@))
        ||| self.fs_type@ == "afs"@
        ||| self.fs_type@ == "coda"@
        ||| self.fs_type@ == "auristorfs"@
        ||| self.fs_type@ == "fhgfs"@
        ||| self.fs_type@ == "gpfs"@
        ||| self.fs_type@ == "ibrix"@
        ||| self.fs_type@ == "ocfs2"@
        ||| self.fs_type@ == "vxfs"@
        ||| self.fs@ == "-hosts"@
    }

    pub fn is_remote(&self) -> (r: bool)
        ensures
            r == self.spec_is_remote(),
    {
        let ft = self.fs_type.as_str();
        crate::strings::str_contains_char(self.fs.as_str(), ':') || (crate::strings::str_starts_with(
            self.fs.as_str(),
            "//",
        ) && (crate::strings::str_eq(ft, "cifs") || crate::strings::str_eq(ft, "smb3")
            || crate::strings::str_eq(ft, "smbfs"))) || crate::strings::str_eq(ft, "afs")
            || crate::strings::str_eq(ft, "coda") || crate::strings::str_eq(ft, "auristorfs")
            || crate::strings::str_eq(ft, "fhgfs") || crate::strings::str_eq(ft, "gpfs")
            || crate::strings::str_eq(ft, "ibrix") || crate::strings::str_eq(ft, "ocfs2")
            || crate::strings::str_eq(ft, "vxfs") || crate::strings::str_eq(
            self.fs.as_str(),
            "-hosts",
        )
    }
}

/// One row of the eventual display.
#[derive(Debug)]
pub struct Mount {
    pub kind: MountKind,
    pub info: MountInfo,
    /// volume label, when known
    pub fs_label: Option<String>,
    /// classification of the underlying physical storage, when known
    pub disk: Option<String>,
    pub stats: StatsResult,
    pub uuid: Option<String>,
    pub part_uuid: Option<String>,
}

impl Mount {
    /// The usage figures, when they could be fetched.
    pub open spec fn spec_stats(self) -> Option<Stats> {
        match self.stats {
            StatsResult::Known(s) => Some(s),
            _ => None,
        }
    }

    pub fn stats(&self) -> (r: Option<&Stats>)
        ensures
            match r {
                Some(s) => self.spec_stats() == Some(*s),
                None => self.spec_stats() is None,
            },
    {
        match &self.stats {
            StatsResult::Known(s) => Some(s),
            _ => None,
        }
    }

    /// The inode figures, when available.
    pub open spec fn spec_inodes(self) -> Option<Inodes> {
        match self.spec_stats() {
            Some(s) => s.inodes,
            None => None,
        }
    }

    pub fn inodes(&self) -> (r: Option<&Inodes>)
        ensures
            match r {
                Some(i) => self.spec_inodes() == Some(*i),
                None => self.spec_inodes() is None,
            },
    {
        match &self.stats {
            StatsResult::Known(s) => match &s.inodes {
                Some(i) => Some(i),
                None => None,
            },
            _ => None,
        }
    }

    /// Whether the only reason there are no figures is that the mount point
    /// could not be reached.
    pub open spec fn spec_is_unreachable(self) -> bool {
        self.stats is Unreachable
    }

    pub fn is_unreachable(&self) -> (r: bool)
        ensures
            r == self.spec_is_unreachable(),
    {
        match &self.stats {
            StatsResult::Unreachable => true,
            _ => false,
        }
    }
}

} // verus!
