//! The closed set of displayable columns: canonical names, aliases, titles,
//! alignments, descriptions and default sort directions, and the parsing of
//! one column token.

use vstd::prelude::*;
use crate::mount::Mount;
use crate::order::Order;
use crate::strings::str_eq;

verus! {

/// How a cell or a header is aligned within its column.
#[derive(Clone, Copy, Debug, PartialEq, Eq, Structural)]
pub enum Alignment {
    Left,
    Center,
    Right,
}

/// Display name for a mount row: cluster-managed rows show their mount
/// point, other rows their filesystem type.
pub open spec fn spec_extract_fsname(m: Mount) -> Seq<char> {
    if m.info.fs_type@ == "lustre"@ {
        m.info.mount_point@
    } else {
        m.info.fs_type@
    }
}

pub fn extract_fsname(mount: &Mount) -> (r: String)
    ensures
        r@ == spec_extract_fsname(*mount),
{
    if str_eq(mount.info.fs_type.as_str(), "lustre") {
        mount.info.mount_point.clone()
    } else {
        mount.info.fs_type.clone()
    }
}

/// A column of the usage table.
#[derive(Clone, Copy, Debug, PartialEq, Eq, Structural)]
pub enum Col {
    Id,
    Dev,
    Filesystem,
    Label,
    Type,
    Remote,
    Disk,
    Used,
    Use,
    UsePercent,
    Free,
    FreePercent,
    Size,
    InodesUsed,
    InodesUse,
    InodesUsePercent,
    InodesFree,
    InodesCount,
    MountPoint,
    FsName,
    Uuid,
    PartUuid,
    StripeCount,
    StripeSize,
    LustreVersion,
    PoolName,
    ComponentType,
    ComponentIndex,
    MirrorCount,
}

/// The canonical name of a column, as written in a column-set expression.
pub open spec fn spec_col_name(c: Col) -> Seq<char> {
    match c {
        Col::Id => "id"@,
        Col::Dev => "dev"@,
        Col::Filesystem => "fs"@,
        Col::Label => "label"@,
        Col::Type => "type"@,
        Col::Remote => "remote"@,
        Col::Disk => "disk"@,
        Col::Used => "used"@,
        Col::Use => "use"@,
        Col::UsePercent => "use_percent"@,
        Col::Free => "free"@,
        Col::FreePercent => "free_percent"@,
        Col::Size => "size"@,
        Col::InodesUsed => "inodes_used"@,
        Col::InodesUse => "inodes"@,
        Col::InodesUsePercent => "inodes_use_percent"@,
        Col::InodesFree => "inodes_free"@,
        Col::InodesCount => "inodes_total"@,
        Col::MountPoint => "mount"@,
        Col::FsName => "fsname"@,
        Col::Uuid => "uuid"@,
        Col::PartUuid => "partuuid"@,
        Col::StripeCount => "stripe_count"@,
        Col::StripeSize => "stripe_size"@,
        Col::LustreVersion => "lustre_version"@,
        Col::PoolName => "pool_name"@,
        Col::ComponentType => "component_type"@,
        Col::ComponentIndex => "component_index"@,
        Col::MirrorCount => "mirror_count"@,
    }
}

/// The accepted aliases of a column's canonical name.
pub open spec fn spec_col_aliases(c: Col) -> Seq<Seq<char>> {
    match c {
        Col::Id => Seq::empty(),
        Col::Dev => seq!["device"@, "device_id"@],
        Col::Filesystem => seq!["filesystem"@],
        Col::Label => Seq::empty(),
        Col::Type => Seq::empty(),
        Col::Remote => seq!["rem"@],
        Col::Disk => seq!["dsk"@],
        Col::Used => Seq::empty(),
        Col::Use => Seq::empty(),
        Col::UsePercent => Seq::empty(),
        Col::Free => Seq::empty(),
        Col::FreePercent => Seq::empty(),
        Col::Size => Seq::empty(),
        Col::InodesUsed => seq!["iused"@],
        Col::InodesUse => seq!["ino"@, "inodes_use"@, "iuse"@],
        Col::InodesUsePercent => seq!["iuse_percent"@],
        Col::InodesFree => seq!["ifree"@],
        Col::InodesCount => seq!["inodes_count"@, "itotal"@],
        Col::MountPoint => seq!["mount_point"@, "mp"@],
        Col::FsName => seq!["fs_name"@],
        Col::Uuid => Seq::empty(),
        Col::PartUuid => seq!["part_uuid"@],
        Col::StripeCount => seq!["stripes"@],
        Col::StripeSize => Seq::empty(),
        Col::LustreVersion => seq!["lus_ver"@],
        Col::PoolName => seq!["pool"@],
        Col::ComponentType => seq!["comp_type"@],
        Col::ComponentIndex => seq!["comp_idx"@],
        Col::MirrorCount => seq!["mirrors"@],
    }
}

/// The column title, in byte mode or in inode mode.
pub open spec fn spec_col_title(c: Col, inodes_mode: bool) -> Seq<char> {
    match c {
        Col::Id => "id"@,
        Col::Dev => "dev"@,
        Col::Filesystem => "filesystem"@,
        Col::Label => "label"@,
        Col::Type => "type"@,
        Col::Remote => "remote"@,
        Col::Disk => "disk"@,
        Col::Used => if inodes_mode { "inodes used"@ } else { "bytes used"@ },
        Col::Use => "use %"@,
        Col::UsePercent => if inodes_mode { "inodes %"@ } else { "bytes %"@ },
        Col::Free => if inodes_mode { "inodes free"@ } else { "bytes free"@ },
        Col::FreePercent => if inodes_mode { "inodes free %"@ } else { "bytes free %"@ },
        Col::Size => if inodes_mode { "inodes total"@ } else { "bytes total"@ },
        Col::InodesUsed => "used inodes"@,
        Col::InodesUse => "inodes"@,
        Col::InodesUsePercent => "inodes%"@,
        Col::InodesFree => "free inodes"@,
        Col::InodesCount => "inodes total"@,
        Col::MountPoint => "mount point"@,
        Col::FsName => if inodes_mode { "fsname"@ } else { "filesystem name"@ },
        Col::Uuid => "UUID"@,
        Col::PartUuid => "PARTUUID"@,
        Col::StripeCount => "stripe count"@,
        Col::StripeSize => "stripe size"@,
        Col::LustreVersion => "lustre version"@,
        Col::PoolName => "pool name"@,
        Col::ComponentType => "component type"@,
        Col::ComponentIndex => "component index"@,
        Col::MirrorCount => "mirror count"@,
    }
}

/// One-line description of what a column shows.
pub open spec fn spec_col_description(c: Col) -> Seq<char> {
    match c {
        Col::Id => "mount point id"@,
        Col::Dev => "device id"@,
        Col::Filesystem => "filesystem"@,
        Col::Label => "volume label"@,
        Col::Type => "filesystem type"@,
        Col::Remote => "whether it's a remote filesystem"@,
        Col::Disk => "storage type"@,
        Col::Used => "bytes used (or inodes used with -i)"@,
        Col::Use => "usage graphical view (bytes or inodes with -i)"@,
        Col::UsePercent => "percentage used (bytes or inodes with -i)"@,
        Col::Free => "free bytes (or free inodes with -i)"@,
        Col::FreePercent => "percentage free (bytes or inodes with -i)"@,
        Col::Size => "total size (bytes or inodes with -i)"@,
        Col::InodesUsed => "number of inodes used"@,
        Col::InodesUse => "graphical view of inodes usage"@,
        Col::InodesUsePercent => "percentage of inodes used"@,
        Col::InodesFree => "number of free inodes"@,
        Col::InodesCount => "total count of inodes"@,
        Col::MountPoint => "mount point"@,
        Col::FsName => "filesystem name"@,
        Col::Uuid => "filesystem UUID"@,
        Col::PartUuid => "partition UUID"@,
        Col::StripeCount => "number of OSTs file data is striped across"@,
        Col::StripeSize => "size of each stripe in bytes"@,
        Col::LustreVersion => "version of Lustre filesystem"@,
        Col::PoolName => "OST pool name for workload isolation"@,
        Col::ComponentType => "type of Lustre component (MDT/OST/CLIENT)"@,
        Col::ComponentIndex => "index number of the component"@,
        Col::MirrorCount => "number of file mirrors for data replication"@,
    }
}

/// The column a token resolves to: an exact match on the canonical name or
/// on any alias, tested among the tokens of the matching length.
pub open spec fn spec_parse_col(s: Seq<char>) -> Option<Col> {
    if s.len() == 2 {
        if s == "id"@ {
            Some(Col::Id)
        } else if s == "fs"@ {
            Some(Col::Filesystem)
        } else if s == "mp"@ {
            Some(Col::MountPoint)
        } else {
            None
        }
    } else if s.len() == 3 {
        if s == "dev"@ {
            Some(Col::Dev)
        } else if s == "rem"@ {
            Some(Col::Remote)
        } else if s == "dsk"@ {
            Some(Col::Disk)
        } else if s == "use"@ {
            Some(Col::Use)
        } else if s == "ino"@ {
            Some(Col::InodesUse)
        } else {
            None
        }
    } else if s.len() == 4 {
        if s == "type"@ {
            Some(Col::Type)
        } else if s == "disk"@ {
            Some(Col::Disk)
        } else if s == "used"@ {
            Some(Col::Used)
        } else if s == "free"@ {
            Some(Col::Free)
        } else if s == "size"@ {
            Some(Col::Size)
        } else if s == "iuse"@ {
            Some(Col::InodesUse)
        } else if s == "uuid"@ {
            Some(Col::Uuid)
        } else if s == "pool"@ {
            Some(Col::PoolName)
        } else {
            None
        }
    } else if s.len() == 5 {
        if s == "label"@ {
            Some(Col::Label)
        } else if s == "iused"@ {
            Some(Col::InodesUsed)
        } else if s == "ifree"@ {
            Some(Col::InodesFree)
        } else if s == "mount"@ {
            Some(Col::MountPoint)
        } else {
            None
        }
    } else if s.len() == 6 {
        if s == "device"@ {
            Some(Col::Dev)
        } else if s == "remote"@ {
            Some(Col::Remote)
        } else if s == "inodes"@ {
            Some(Col::InodesUse)
        } else if s == "itotal"@ {
            Some(Col::InodesCount)
        } else if s == "fsname"@ {
            Some(Col::FsName)
        } else {
            None
        }
    } else if s.len() == 7 {
        if s == "fs_name"@ {
            Some(Col::FsName)
        } else if s == "stripes"@ {
            Some(Col::StripeCount)
        } else if s == "lus_ver"@ {
            Some(Col::LustreVersion)
        } else if s == "mirrors"@ {
            Some(Col::MirrorCount)
        } else {
            None
        }
    } else if s.len() == 8 {
        if s == "partuuid"@ {
            Some(Col::PartUuid)
        } else if s == "comp_idx"@ {
            Some(Col::ComponentIndex)
        } else {
            None
        }
    } else if s.len() == 9 {
        if s == "device_id"@ {
            Some(Col::Dev)
        } else if s == "part_uuid"@ {
            Some(Col::PartUuid)
        } else if s == "pool_name"@ {
            Some(Col::PoolName)
        } else if s == "comp_type"@ {
            Some(Col::ComponentType)
        } else {
            None
        }
    } else if s.len() == 10 {
        if s == "filesystem"@ {
            Some(Col::Filesystem)
        } else if s == "inodes_use"@ {
            Some(Col::InodesUse)
        } else {
            None
        }
    } else if s.len() == 11 {
        if s == "use_percent"@ {
            Some(Col::UsePercent)
        } else if s == "inodes_used"@ {
            Some(Col::InodesUsed)
        } else if s == "inodes_free"@ {
            Some(Col::InodesFree)
        } else if s == "mount_point"@ {
            Some(Col::MountPoint)
        } else if s == "stripe_size"@ {
            Some(Col::StripeSize)
        } else {
            None
        }
    } else if s.len() == 12 {
        if s == "free_percent"@ {
            Some(Col::FreePercent)
        } else if s == "iuse_percent"@ {
            Some(Col::InodesUsePercent)
        } else if s == "inodes_total"@ {
            Some(Col::InodesCount)
        } else if s == "inodes_count"@ {
            Some(Col::InodesCount)
        } else if s == "stripe_count"@ {
            Some(Col::StripeCount)
        } else if s == "mirror_count"@ {
            Some(Col::MirrorCount)
        } else {
            None
        }
    } else if s.len() == 14 {
        if s == "lustre_version"@ {
            Some(Col::LustreVersion)
        } else if s == "component_type"@ {
            Some(Col::ComponentType)
        } else {
            None
        }
    } else if s.len() == 15 {
        if s == "component_index"@ {
            Some(Col::ComponentIndex)
        } else {
            None
        }
    } else if s.len() == 18 {
        if s == "inodes_use_percent"@ {
            Some(Col::InodesUsePercent)
        } else {
            None
        }
    } else {
        None
    }
}

/// Whether the column is shown when no column set is asked for.
pub open spec fn spec_col_is_default(c: Col) -> bool {
    match c {
        Col::Id => false,
        Col::Dev => false,
        Col::Filesystem => true,
        Col::Label => false,
        Col::Type => false,
        Col::Remote => false,
        Col::Disk => false,
        Col::Used => true,
        Col::Use => true,
        Col::UsePercent => false,
        Col::Free => true,
        Col::FreePercent => false,
        Col::Size => true,
        Col::InodesUsed => false,
        Col::InodesUse => false,
        Col::InodesUsePercent => false,
        Col::InodesFree => false,
        Col::InodesCount => false,
        Col::MountPoint => true,
        Col::FsName => false,
        Col::Uuid => false,
        Col::PartUuid => false,
        Col::StripeCount => false,
        Col::StripeSize => false,
        Col::LustreVersion => false,
        Col::PoolName => false,
        Col::ComponentType => false,
        Col::ComponentIndex => false,
        Col::MirrorCount => false,
    }
}

/// The direction a column sorts in when none is asked for.
pub open spec fn spec_default_sort_order(c: Col) -> Order {
    match c {
        Col::Id => Order::Asc,
        Col::Dev => Order::Asc,
        Col::Filesystem => Order::Asc,
        Col::Label => Order::Asc,
        Col::Type => Order::Asc,
        Col::Remote => Order::Desc,
        Col::Disk => Order::Asc,
        Col::Used => Order::Asc,
        Col::Use => Order::Desc,
        Col::UsePercent => Order::Asc,
        Col::Free => Order::Asc,
        Col::FreePercent => Order::Desc,
        Col::Size => Order::Desc,
        Col::InodesUsed => Order::Asc,
        Col::InodesUse => Order::Asc,
        Col::InodesUsePercent => Order::Asc,
        Col::InodesFree => Order::Asc,
        Col::InodesCount => Order::Asc,
        Col::MountPoint => Order::Asc,
        Col::FsName => Order::Asc,
        Col::Uuid => Order::Asc,
        Col::PartUuid => Order::Asc,
        Col::StripeCount => Order::Desc,
        Col::StripeSize => Order::Desc,
        Col::LustreVersion => Order::Asc,
        Col::PoolName => Order::Asc,
        Col::ComponentType => Order::Asc,
        Col::ComponentIndex => Order::Asc,
        Col::MirrorCount => Order::Desc,
    }
}

/// Header alignment of a column.
pub open spec fn spec_header_align(c: Col) -> Alignment {
    match c {
        Col::Id => Alignment::Center,
        Col::Dev => Alignment::Center,
        Col::Filesystem => Alignment::Center,
        Col::Label => Alignment::Left,
        Col::Type => Alignment::Center,
        Col::Remote => Alignment::Center,
        Col::Disk => Alignment::Center,
        Col::Used => Alignment::Center,
        Col::Use => Alignment::Center,
        Col::UsePercent => Alignment::Center,
        Col::Free => Alignment::Center,
        Col::FreePercent => Alignment::Center,
        Col::Size => Alignment::Center,
        Col::InodesUsed => Alignment::Center,
        Col::InodesUse => Alignment::Center,
        Col::InodesUsePercent => Alignment::Center,
        Col::InodesFree => Alignment::Center,
        Col::InodesCount => Alignment::Center,
        Col::MountPoint => Alignment::Left,
        Col::FsName => Alignment::Left,
        Col::Uuid => Alignment::Center,
        Col::PartUuid => Alignment::Center,
        Col::StripeCount => Alignment::Center,
        Col::StripeSize => Alignment::Center,
        Col::LustreVersion => Alignment::Center,
        Col::PoolName => Alignment::Center,
        Col::ComponentType => Alignment::Center,
        Col::ComponentIndex => Alignment::Center,
        Col::MirrorCount => Alignment::Center,
    }
}

/// Content alignment of a column.
pub open spec fn spec_content_align(c: Col) -> Alignment {
    match c {
        Col::Id => Alignment::Center,
        Col::Dev => Alignment::Center,
        Col::Filesystem => Alignment::Left,
        Col::Label => Alignment::Left,
        Col::Type => Alignment::Center,
        Col::Remote => Alignment::Center,
        Col::Disk => Alignment::Center,
        Col::Used => Alignment::Center,
        Col::Use => Alignment::Center,
        Col::UsePercent => Alignment::Center,
        Col::Free => Alignment::Center,
        Col::FreePercent => Alignment::Center,
        Col::Size => Alignment::Center,
        Col::InodesUsed => Alignment::Center,
        Col::InodesUse => Alignment::Center,
        Col::InodesUsePercent => Alignment::Center,
        Col::InodesFree => Alignment::Center,
        Col::InodesCount => Alignment::Center,
        Col::MountPoint => Alignment::Left,
        Col::FsName => Alignment::Left,
        Col::Uuid => Alignment::Left,
        Col::PartUuid => Alignment::Left,
        Col::StripeCount => Alignment::Center,
        Col::StripeSize => Alignment::Center,
        Col::LustreVersion => Alignment::Center,
        Col::PoolName => Alignment::Left,
        Col::ComponentType => Alignment::Center,
        Col::ComponentIndex => Alignment::Center,
        Col::MirrorCount => Alignment::Center,
    }
}

/// Every column, in display-table order.
pub open spec fn spec_all_cols() -> Seq<Col> {
    seq![
        Col::Id,
        Col::Dev,
        Col::Filesystem,
        Col::Label,
        Col::Type,
        Col::Remote,
        Col::Disk,
        Col::Used,
        Col::Use,
        Col::UsePercent,
        Col::Free,
        Col::FreePercent,
        Col::Size,
        Col::InodesUsed,
        Col::InodesUse,
        Col::InodesUsePercent,
        Col::InodesFree,
        Col::InodesCount,
        Col::MountPoint,
        Col::FsName,
        Col::Uuid,
        Col::PartUuid,
        Col::StripeCount,
        Col::StripeSize,
        Col::LustreVersion,
        Col::PoolName,
        Col::ComponentType,
        Col::ComponentIndex,
        Col::MirrorCount,
    ]
}

/// The columns shown when no column set is asked for, in order.
pub open spec fn spec_default_cols() -> Seq<Col> {
    seq![
        Col::Filesystem,
        Col::Used,
        Col::Use,
        Col::Free,
        Col::Size,
        Col::MountPoint,
    ]
}

impl Col {
    pub fn name(self) -> (r: &'static str)
        ensures
            r@ == spec_col_name(self),
    {
        match self {
            Self::Id => "id",
            Self::Dev => "dev",
            Self::Filesystem => "fs",
            Self::Label => "label",
            Self::Type => "type",
            Self::Remote => "remote",
            Self::Disk => "disk",
            Self::Used => "used",
            Self::Use => "use",
            Self::UsePercent => "use_percent",
            Self::Free => "free",
            Self::FreePercent => "free_percent",
            Self::Size => "size",
            Self::InodesUsed => "inodes_used",
            Self::InodesUse => "inodes",
            Self::InodesUsePercent => "inodes_use_percent",
            Self::InodesFree => "inodes_free",
            Self::InodesCount => "inodes_total",
            Self::MountPoint => "mount",
            Self::FsName => "fsname",
            Self::Uuid => "uuid",
            Self::PartUuid => "partuuid",
            Self::StripeCount => "stripe_count",
            Self::StripeSize => "stripe_size",
            Self::LustreVersion => "lustre_version",
            Self::PoolName => "pool_name",
            Self::ComponentType => "component_type",
            Self::ComponentIndex => "component_index",
            Self::MirrorCount => "mirror_count",
        }
    }

    pub fn title(self, inodes_mode: bool) -> (r: &'static str)
        ensures
            r@ == spec_col_title(self, inodes_mode),
    {
        match self {
            Self::Id => "id",
            Self::Dev => "dev",
            Self::Filesystem => "filesystem",
            Self::Label => "label",
            Self::Type => "type",
            Self::Remote => "remote",
            Self::Disk => "disk",
            Self::Used => if inodes_mode { "inodes used" } else { "bytes used" },
            Self::Use => "use %",
            Self::UsePercent => if inodes_mode { "inodes %" } else { "bytes %" },
            Self::Free => if inodes_mode { "inodes free" } else { "bytes free" },
            Self::FreePercent => if inodes_mode { "inodes free %" } else { "bytes free %" },
            Self::Size => if inodes_mode { "inodes total" } else { "bytes total" },
            Self::InodesUsed => "used inodes",
            Self::InodesUse => "inodes",
            Self::InodesUsePercent => "inodes%",
            Self::InodesFree => "free inodes",
            Self::InodesCount => "inodes total",
            Self::MountPoint => "mount point",
            Self::FsName => if inodes_mode { "fsname" } else { "filesystem name" },
            Self::Uuid => "UUID",
            Self::PartUuid => "PARTUUID",
            Self::StripeCount => "stripe count",
            Self::StripeSize => "stripe size",
            Self::LustreVersion => "lustre version",
            Self::PoolName => "pool name",
            Self::ComponentType => "component type",
            Self::ComponentIndex => "component index",
            Self::MirrorCount => "mirror count",
        }
    }

    pub fn aliases(self) -> (r: Vec<&'static str>)
        ensures
            r@.len() == spec_col_aliases(self).len(),
            forall|i: int| 0 <= i < r@.len() ==> r@[i]@ == spec_col_aliases(self)[i],
    {
        let mut v: Vec<&'static str> = Vec::new();
        match self {
            Self::Id => {},
            Self::Dev => {
                v.push("device");
                v.push("device_id");
            },
            Self::Filesystem => {
                v.push("filesystem");
            },
            Self::Label => {},
            Self::Type => {},
            Self::Remote => {
                v.push("rem");
            },
            Self::Disk => {
                v.push("dsk");
            },
            Self::Used => {},
            Self::Use => {},
            Self::UsePercent => {},
            Self::Free => {},
            Self::FreePercent => {},
            Self::Size => {},
            Self::InodesUsed => {
                v.push("iused");
            },
            Self::InodesUse => {
                v.push("ino");
                v.push("inodes_use");
                v.push("iuse");
            },
            Self::InodesUsePercent => {
                v.push("iuse_percent");
            },
            Self::InodesFree => {
                v.push("ifree");
            },
            Self::InodesCount => {
                v.push("inodes_count");
                v.push("itotal");
            },
            Self::MountPoint => {
                v.push("mount_point");
                v.push("mp");
            },
            Self::FsName => {
                v.push("fs_name");
            },
            Self::Uuid => {},
            Self::PartUuid => {
                v.push("part_uuid");
            },
            Self::StripeCount => {
                v.push("stripes");
            },
            Self::StripeSize => {},
            Self::LustreVersion => {
                v.push("lus_ver");
            },
            Self::PoolName => {
                v.push("pool");
            },
            Self::ComponentType => {
                v.push("comp_type");
            },
            Self::ComponentIndex => {
                v.push("comp_idx");
            },
            Self::MirrorCount => {
                v.push("mirrors");
            },
        }
        proof {
            assert(forall|i: int| 0 <= i < v@.len() ==> v@[i]@ == spec_col_aliases(self)[i]);
        }
        v
    }

    pub fn description(self) -> (r: &'static str)
        ensures
            r@ == spec_col_description(self),
    {
        match self {
            Self::Id => "mount point id",
            Self::Dev => "device id",
            Self::Filesystem => "filesystem",
            Self::Label => "volume label",
            Self::Type => "filesystem type",
            Self::Remote => "whether it's a remote filesystem",
            Self::Disk => "storage type",
            Self::Used => "bytes used (or inodes used with -i)",
            Self::Use => "usage graphical view (bytes or inodes with -i)",
            Self::UsePercent => "percentage used (bytes or inodes with -i)",
            Self::Free => "free bytes (or free inodes with -i)",
            Self::FreePercent => "percentage free (bytes or inodes with -i)",
            Self::Size => "total size (bytes or inodes with -i)",
            Self::InodesUsed => "number of inodes used",
            Self::InodesUse => "graphical view of inodes usage",
            Self::InodesUsePercent => "percentage of inodes used",
            Self::InodesFree => "number of free inodes",
            Self::InodesCount => "total count of inodes",
            Self::MountPoint => "mount point",
            Self::FsName => "filesystem name",
            Self::Uuid => "filesystem UUID",
            Self::PartUuid => "partition UUID",
            Self::StripeCount => "number of OSTs file data is striped across",
            Self::StripeSize => "size of each stripe in bytes",
            Self::LustreVersion => "version of Lustre filesystem",
            Self::PoolName => "OST pool name for workload isolation",
            Self::ComponentType => "type of Lustre component (MDT/OST/CLIENT)",
            Self::ComponentIndex => "index number of the component",
            Self::MirrorCount => "number of file mirrors for data replication",
        }
    }

    pub fn is_default(self) -> (r: bool)
        ensures
            r == spec_col_is_default(self),
    {
        match self {
            Self::Id => false,
            Self::Dev => false,
            Self::Filesystem => true,
            Self::Label => false,
            Self::Type => false,
            Self::Remote => false,
            Self::Disk => false,
            Self::Used => true,
            Self::Use => true,
            Self::UsePercent => false,
            Self::Free => true,
            Self::FreePercent => false,
            Self::Size => true,
            Self::InodesUsed => false,
            Self::InodesUse => false,
            Self::InodesUsePercent => false,
            Self::InodesFree => false,
            Self::InodesCount => false,
            Self::MountPoint => true,
            Self::FsName => false,
            Self::Uuid => false,
            Self::PartUuid => false,
            Self::StripeCount => false,
            Self::StripeSize => false,
            Self::LustreVersion => false,
            Self::PoolName => false,
            Self::ComponentType => false,
            Self::ComponentIndex => false,
            Self::MirrorCount => false,
        }
    }

    pub fn header_align(self) -> (r: Alignment)
        ensures
            r == spec_header_align(self),
    {
        match self {
            Self::Id => Alignment::Center,
            Self::Dev => Alignment::Center,
            Self::Filesystem => Alignment::Center,
            Self::Label => Alignment::Left,
            Self::Type => Alignment::Center,
            Self::Remote => Alignment::Center,
            Self::Disk => Alignment::Center,
            Self::Used => Alignment::Center,
            Self::Use => Alignment::Center,
            Self::UsePercent => Alignment::Center,
            Self::Free => Alignment::Center,
            Self::FreePercent => Alignment::Center,
            Self::Size => Alignment::Center,
            Self::InodesUsed => Alignment::Center,
            Self::InodesUse => Alignment::Center,
            Self::InodesUsePercent => Alignment::Center,
            Self::InodesFree => Alignment::Center,
            Self::InodesCount => Alignment::Center,
            Self::MountPoint => Alignment::Left,
            Self::FsName => Alignment::Left,
            Self::Uuid => Alignment::Center,
            Self::PartUuid => Alignment::Center,
            Self::StripeCount => Alignment::Center,
            Self::StripeSize => Alignment::Center,
            Self::LustreVersion => Alignment::Center,
            Self::PoolName => Alignment::Center,
            Self::ComponentType => Alignment::Center,
            Self::ComponentIndex => Alignment::Center,
            Self::MirrorCount => Alignment::Center,
        }
    }

    pub fn content_align(self) -> (r: Alignment)
        ensures
            r == spec_content_align(self),
    {
        match self {
            Self::Id => Alignment::Center,
            Self::Dev => Alignment::Center,
            Self::Filesystem => Alignment::Left,
            Self::Label => Alignment::Left,
            Self::Type => Alignment::Center,
            Self::Remote => Alignment::Center,
            Self::Disk => Alignment::Center,
            Self::Used => Alignment::Center,
            Self::Use => Alignment::Center,
            Self::UsePercent => Alignment::Center,
            Self::Free => Alignment::Center,
            Self::FreePercent => Alignment::Center,
            Self::Size => Alignment::Center,
            Self::InodesUsed => Alignment::Center,
            Self::InodesUse => Alignment::Center,
            Self::InodesUsePercent => Alignment::Center,
            Self::InodesFree => Alignment::Center,
            Self::InodesCount => Alignment::Center,
            Self::MountPoint => Alignment::Left,
            Self::FsName => Alignment::Left,
            Self::Uuid => Alignment::Left,
            Self::PartUuid => Alignment::Left,
            Self::StripeCount => Alignment::Center,
            Self::StripeSize => Alignment::Center,
            Self::LustreVersion => Alignment::Center,
            Self::PoolName => Alignment::Left,
            Self::ComponentType => Alignment::Center,
            Self::ComponentIndex => Alignment::Center,
            Self::MirrorCount => Alignment::Center,
        }
    }

    pub fn default_sort_order(self) -> (r: Order)
        ensures
            r == spec_default_sort_order(self),
    {
        match self {
            Self::Id => Order::Asc,
            Self::Dev => Order::Asc,
            Self::Filesystem => Order::Asc,
            Self::Label => Order::Asc,
            Self::Type => Order::Asc,
            Self::Remote => Order::Desc,
            Self::Disk => Order::Asc,
            Self::Used => Order::Asc,
            Self::Use => Order::Desc,
            Self::UsePercent => Order::Asc,
            Self::Free => Order::Asc,
            Self::FreePercent => Order::Desc,
            Self::Size => Order::Desc,
            Self::InodesUsed => Order::Asc,
            Self::InodesUse => Order::Asc,
            Self::InodesUsePercent => Order::Asc,
            Self::InodesFree => Order::Asc,
            Self::InodesCount => Order::Asc,
            Self::MountPoint => Order::Asc,
            Self::FsName => Order::Asc,
            Self::Uuid => Order::Asc,
            Self::PartUuid => Order::Asc,
            Self::StripeCount => Order::Desc,
            Self::StripeSize => Order::Desc,
            Self::LustreVersion => Order::Asc,
            Self::PoolName => Order::Asc,
            Self::ComponentType => Order::Asc,
            Self::ComponentIndex => Order::Asc,
            Self::MirrorCount => Order::Desc,
        }
    }

    pub fn default_sort_col() -> (r: Self)
        ensures
            r == Col::Size,
    {
        Self::Size
    }

    /// Resolves a column token: an exact match on the canonical name or any
    /// alias; an unknown token is an error carrying the token itself.
    pub fn parse(s: &str) -> (r: Result<Col, ParseColError>)
        ensures
            match r {
                Ok(c) => spec_parse_col(s@) == Some(c),
                Err(e) => spec_parse_col(s@) is None && e.raw@ == s@,
            },
    {
        let n = s.unicode_len();
        if n == 2 {
            if str_eq(s, "id") {
                Ok(Col::Id)
            } else if str_eq(s, "fs") {
                Ok(Col::Filesystem)
            } else if str_eq(s, "mp") {
                Ok(Col::MountPoint)
            } else {
                Err(ParseColError::new(s))
            }
        } else if n == 3 {
            if str_eq(s, "dev") {
                Ok(Col::Dev)
            } else if str_eq(s, "rem") {
                Ok(Col::Remote)
            } else if str_eq(s, "dsk") {
                Ok(Col::Disk)
            } else if str_eq(s, "use") {
                Ok(Col::Use)
            } else if str_eq(s, "ino") {
                Ok(Col::InodesUse)
            } else {
                Err(ParseColError::new(s))
            }
        } else if n == 4 {
            if str_eq(s, "type") {
                Ok(Col::Type)
            } else if str_eq(s, "disk") {
                Ok(Col::Disk)
            } else if str_eq(s, "used") {
                Ok(Col::Used)
            } else if str_eq(s, "free") {
                Ok(Col::Free)
            } else if str_eq(s, "size") {
                Ok(Col::Size)
            } else if str_eq(s, "iuse") {
                Ok(Col::InodesUse)
            } else if str_eq(s, "uuid") {
                Ok(Col::Uuid)
            } else if str_eq(s, "pool") {
                Ok(Col::PoolName)
            } else {
                Err(ParseColError::new(s))
            }
        } else if n == 5 {
            if str_eq(s, "label") {
                Ok(Col::Label)
            } else if str_eq(s, "iused") {
                Ok(Col::InodesUsed)
            } else if str_eq(s, "ifree") {
                Ok(Col::InodesFree)
            } else if str_eq(s, "mount") {
                Ok(Col::MountPoint)
            } else {
                Err(ParseColError::new(s))
            }
        } else if n == 6 {
            if str_eq(s, "device") {
                Ok(Col::Dev)
            } else if str_eq(s, "remote") {
                Ok(Col::Remote)
            } else if str_eq(s, "inodes") {
                Ok(Col::InodesUse)
            } else if str_eq(s, "itotal") {
                Ok(Col::InodesCount)
            } else if str_eq(s, "fsname") {
                Ok(Col::FsName)
            } else {
                Err(ParseColError::new(s))
            }
        } else if n == 7 {
            if str_eq(s, "fs_name") {
                Ok(Col::FsName)
            } else if str_eq(s, "stripes") {
                Ok(Col::StripeCount)
            } else if str_eq(s, "lus_ver") {
                Ok(Col::LustreVersion)
            } else if str_eq(s, "mirrors") {
                Ok(Col::MirrorCount)
            } else {
                Err(ParseColError::new(s))
            }
        } else if n == 8 {
            if str_eq(s, "partuuid") {
                Ok(Col::PartUuid)
            } else if str_eq(s, "comp_idx") {
                Ok(Col::ComponentIndex)
            } else {
                Err(ParseColError::new(s))
            }
        } else if n == 9 {
            if str_eq(s, "device_id") {
                Ok(Col::Dev)
            } else if str_eq(s, "part_uuid") {
                Ok(Col::PartUuid)
            } else if str_eq(s, "pool_name") {
                Ok(Col::PoolName)
            } else if str_eq(s, "comp_type") {
                Ok(Col::ComponentType)
            } else {
                Err(ParseColError::new(s))
            }
        } else if n == 10 {
            if str_eq(s, "filesystem") {
                Ok(Col::Filesystem)
            } else if str_eq(s, "inodes_use") {
                Ok(Col::InodesUse)
            } else {
                Err(ParseColError::new(s))
            }
        } else if n == 11 {
            if str_eq(s, "use_percent") {
                Ok(Col::UsePercent)
            } else if str_eq(s, "inodes_used") {
                Ok(Col::InodesUsed)
            } else if str_eq(s, "inodes_free") {
                Ok(Col::InodesFree)
            } else if str_eq(s, "mount_point") {
                Ok(Col::MountPoint)
            } else if str_eq(s, "stripe_size") {
                Ok(Col::StripeSize)
            } else {
                Err(ParseColError::new(s))
            }
        } else if n == 12 {
            if str_eq(s, "free_percent") {
                Ok(Col::FreePercent)
            } else if str_eq(s, "iuse_percent") {
                Ok(Col::InodesUsePercent)
            } else if str_eq(s, "inodes_total") {
                Ok(Col::InodesCount)
            } else if str_eq(s, "inodes_count") {
                Ok(Col::InodesCount)
            } else if str_eq(s, "stripe_count") {
                Ok(Col::StripeCount)
            } else if str_eq(s, "mirror_count") {
                Ok(Col::MirrorCount)
            } else {
                Err(ParseColError::new(s))
            }
        } else if n == 14 {
            if str_eq(s, "lustre_version") {
                Ok(Col::LustreVersion)
            } else if str_eq(s, "component_type") {
                Ok(Col::ComponentType)
            } else {
                Err(ParseColError::new(s))
            }
        } else if n == 15 {
            if str_eq(s, "component_index") {
                Ok(Col::ComponentIndex)
            } else {
                Err(ParseColError::new(s))
            }
        } else if n == 18 {
            if str_eq(s, "inodes_use_percent") {
                Ok(Col::InodesUsePercent)
            } else {
                Err(ParseColError::new(s))
            }
        } else {
            Err(ParseColError::new(s))
        }
    }
}

/// Every column, in display-table order.
pub fn all_cols() -> (r: Vec<Col>)
    ensures
        r@ == spec_all_cols(),
{
    let mut v: Vec<Col> = Vec::new();
    v.push(Col::Id);
    v.push(Col::Dev);
    v.push(Col::Filesystem);
    v.push(Col::Label);
    v.push(Col::Type);
    v.push(Col::Remote);
    v.push(Col::Disk);
    v.push(Col::Used);
    v.push(Col::Use);
    v.push(Col::UsePercent);
    v.push(Col::Free);
    v.push(Col::FreePercent);
    v.push(Col::Size);
    v.push(Col::InodesUsed);
    v.push(Col::InodesUse);
    v.push(Col::InodesUsePercent);
    v.push(Col::InodesFree);
    v.push(Col::InodesCount);
    v.push(Col::MountPoint);
    v.push(Col::FsName);
    v.push(Col::Uuid);
    v.push(Col::PartUuid);
    v.push(Col::StripeCount);
    v.push(Col::StripeSize);
    v.push(Col::LustreVersion);
    v.push(Col::PoolName);
    v.push(Col::ComponentType);
    v.push(Col::ComponentIndex);
    v.push(Col::MirrorCount);
    proof {
        assert(v@ =~= spec_all_cols());
    }
    v
}

/// The columns shown when no column set is asked for, in order.
pub fn default_cols() -> (r: Vec<Col>)
    ensures
        r@ == spec_default_cols(),
{
    let mut v: Vec<Col> = Vec::new();
    v.push(Col::Filesystem);
    v.push(Col::Used);
    v.push(Col::Use);
    v.push(Col::Free);
    v.push(Col::Size);
    v.push(Col::MountPoint);
    proof {
        assert(v@ =~= spec_default_cols());
    }
    v
}

/// The error for a token that resolves to no column.
#[derive(Debug)]
pub struct ParseColError {
    /// the string which couldn't be parsed
    pub raw: String,
}

impl ParseColError {
    pub fn new(s: &str) -> (r: Self)
        ensures
            r.raw@ == s@,
    {
        Self { raw: s.to_owned() }
    }
}


#[verifier::rlimit(50)]
proof fn lemma_parse_tokens_id()
    ensures
        spec_parse_col(spec_col_name(Col::Id)) == Some(Col::Id),
        forall|i: int|
            0 <= i < spec_col_aliases(Col::Id).len() ==> spec_parse_col(
                spec_col_aliases(Col::Id)[i],
            ) == Some(Col::Id),
{
    reveal_strlit("id");
    assert(spec_parse_col("id"@) == Some(Col::Id));
}

#[verifier::rlimit(50)]
proof fn lemma_parse_tokens_dev()
    ensures
        spec_parse_col(spec_col_name(Col::Dev)) == Some(Col::Dev),
        forall|i: int|
            0 <= i < spec_col_aliases(Col::Dev).len() ==> spec_parse_col(
                spec_col_aliases(Col::Dev)[i],
            ) == Some(Col::Dev),
{
    reveal_strlit("dev");
    reveal_strlit("device");
    reveal_strlit("device_id");
    assert(spec_parse_col("dev"@) == Some(Col::Dev));
    assert(spec_parse_col("device"@) == Some(Col::Dev));
    assert(spec_parse_col("device_id"@) == Some(Col::Dev));
}

#[verifier::rlimit(50)]
proof fn lemma_parse_tokens_fs()
    ensures
        spec_parse_col(spec_col_name(Col::Filesystem)) == Some(Col::Filesystem),
        forall|i: int|
            0 <= i < spec_col_aliases(Col::Filesystem).len() ==> spec_parse_col(
                spec_col_aliases(Col::Filesystem)[i],
            ) == Some(Col::Filesystem),
{
    reveal_strlit("filesystem");
    reveal_strlit("fs");
    reveal_strlit("id");
    assert("fs"@[0] == 'f' && "id"@[0] == 'i');
    assert("fs"@ != "id"@);
    assert(spec_parse_col("fs"@) == Some(Col::Filesystem));
    assert(spec_parse_col("filesystem"@) == Some(Col::Filesystem));
}

#[verifier::rlimit(50)]
proof fn lemma_parse_tokens_label()
    ensures
        spec_parse_col(spec_col_name(Col::Label)) == Some(Col::Label),
        forall|i: int|
            0 <= i < spec_col_aliases(Col::Label).len() ==> spec_parse_col(
                spec_col_aliases(Col::Label)[i],
            ) == Some(Col::Label),
{
    reveal_strlit("label");
    assert(spec_parse_col("label"@) == Some(Col::Label));
}

#[verifier::rlimit(50)]
proof fn lemma_parse_tokens_type()
    ensures
        spec_parse_col(spec_col_name(Col::Type)) == Some(Col::Type),
        forall|i: int|
            0 <= i < spec_col_aliases(Col::Type).len() ==> spec_parse_col(
                spec_col_aliases(Col::Type)[i],
            ) == Some(Col::Type),
{
    reveal_strlit("type");
    assert(spec_parse_col("type"@) == Some(Col::Type));
}

#[verifier::rlimit(50)]
proof fn lemma_parse_tokens_remote()
    ensures
        spec_parse_col(spec_col_name(Col::Remote)) == Some(Col::Remote),
        forall|i: int|
            0 <= i < spec_col_aliases(Col::Remote).len() ==> spec_parse_col(
                spec_col_aliases(Col::Remote)[i],
            ) == Some(Col::Remote),
{
    reveal_strlit("dev");
    reveal_strlit("device");
    reveal_strlit("rem");
    reveal_strlit("remote");
    assert("remote"@[0] == 'r' && "device"@[0] == 'd');
    assert("remote"@ != "device"@);
    assert(spec_parse_col("remote"@) == Some(Col::Remote));
    assert("rem"@[0] == 'r' && "dev"@[0] == 'd');
    assert("rem"@ != "dev"@);
    assert(spec_parse_col("rem"@) == Some(Col::Remote));
}

#[verifier::rlimit(50)]
proof fn lemma_parse_tokens_disk()
    ensures
        spec_parse_col(spec_col_name(Col::Disk)) == Some(Col::Disk),
        forall|i: int|
            0 <= i < spec_col_aliases(Col::Disk).len() ==> spec_parse_col(
                spec_col_aliases(Col::Disk)[i],
            ) == Some(Col::Disk),
{
    reveal_strlit("dev");
    reveal_strlit("disk");
    reveal_strlit("dsk");
    reveal_strlit("rem");
    reveal_strlit("type");
    assert("disk"@[0] == 'd' && "type"@[0] == 't');
    assert("disk"@ != "type"@);
    assert(spec_parse_col("disk"@) == Some(Col::Disk));
    assert("dsk"@[1] == 's' && "dev"@[1] == 'e');
    assert("dsk"@ != "dev"@);
    assert("dsk"@[0] == 'd' && "rem"@[0] == 'r');
    assert("dsk"@ != "rem"@);
    assert(spec_parse_col("dsk"@) == Some(Col::Disk));
}

#[verifier::rlimit(50)]
proof fn lemma_parse_tokens_used()
    ensures
        spec_parse_col(spec_col_name(Col::Used)) == Some(Col::Used),
        forall|i: int|
            0 <= i < spec_col_aliases(Col::Used).len() ==> spec_parse_col(
                spec_col_aliases(Col::Used)[i],
            ) == Some(Col::Used),
{
    reveal_strlit("disk");
    reveal_strlit("type");
    reveal_strlit("used");
    assert("used"@[0] == 'u' && "type"@[0] == 't');
    assert("used"@ != "type"@);
    assert("used"@[0] == 'u' && "disk"@[0] == 'd');
    assert("used"@ != "disk"@);
    assert(spec_parse_col("used"@) == Some(Col::Used));
}

#[verifier::rlimit(50)]
proof fn lemma_parse_tokens_use()
    ensures
        spec_parse_col(spec_col_name(Col::Use)) == Some(Col::Use),
        forall|i: int|
            0 <= i < spec_col_aliases(Col::Use).len() ==> spec_parse_col(
                spec_col_aliases(Col::Use)[i],
            ) == Some(Col::Use),
{
    reveal_strlit("dev");
    reveal_strlit("dsk");
    reveal_strlit("rem");
    reveal_strlit("use");
    assert("use"@[0] == 'u' && "dev"@[0] == 'd');
    assert("use"@ != "dev"@);
    assert("use"@[0] == 'u' && "rem"@[0] == 'r');
    assert("use"@ != "rem"@);
    assert("use"@[0] == 'u' && "dsk"@[0] == 'd');
    assert("use"@ != "dsk"@);
    assert(spec_parse_col("use"@) == Some(Col::Use));
}

#[verifier::rlimit(50)]
proof fn lemma_parse_tokens_use_percent()
    ensures
        spec_parse_col(spec_col_name(Col::UsePercent)) == Some(Col::UsePercent),
        forall|i: int|
            0 <= i < spec_col_aliases(Col::UsePercent).len() ==> spec_parse_col(
                spec_col_aliases(Col::UsePercent)[i],
            ) == Some(Col::UsePercent),
{
    reveal_strlit("use_percent");
    assert(spec_parse_col("use_percent"@) == Some(Col::UsePercent));
}

#[verifier::rlimit(50)]
proof fn lemma_parse_tokens_free()
    ensures
        spec_parse_col(spec_col_name(Col::Free)) == Some(Col::Free),
        forall|i: int|
            0 <= i < spec_col_aliases(Col::Free).len() ==> spec_parse_col(
                spec_col_aliases(Col::Free)[i],
            ) == Some(Col::Free),
{
    reveal_strlit("disk");
    reveal_strlit("free");
    reveal_strlit("type");
    reveal_strlit("used");
    assert("free"@[0] == 'f' && "type"@[0] == 't');
    assert("free"@ != "type"@);
    assert("free"@[0] == 'f' && "disk"@[0] == 'd');
    assert("free"@ != "disk"@);
    assert("free"@[0] == 'f' && "used"@[0] == 'u');
    assert("free"@ != "used"@);
    assert(spec_parse_col("free"@) == Some(Col::Free));
}

#[verifier::rlimit(50)]
proof fn lemma_parse_tokens_free_percent()
    ensures
        spec_parse_col(spec_col_name(Col::FreePercent)) == Some(Col::FreePercent),
        forall|i: int|
            0 <= i < spec_col_aliases(Col::FreePercent).len() ==> spec_parse_col(
                spec_col_aliases(Col::FreePercent)[i],
            ) == Some(Col::FreePercent),
{
    reveal_strlit("free_percent");
    assert(spec_parse_col("free_percent"@) == Some(Col::FreePercent));
}

#[verifier::rlimit(50)]
proof fn lemma_parse_tokens_size()
    ensures
        spec_parse_col(spec_col_name(Col::Size)) == Some(Col::Size),
        forall|i: int|
            0 <= i < spec_col_aliases(Col::Size).len() ==> spec_parse_col(
                spec_col_aliases(Col::Size)[i],
            ) == Some(Col::Size),
{
    reveal_strlit("disk");
    reveal_strlit("free");
    reveal_strlit("size");
    reveal_strlit("type");
    reveal_strlit("used");
    assert("size"@[0] == 's' && "type"@[0] == 't');
    assert("size"@ != "type"@);
    assert("size"@[0] == 's' && "disk"@[0] == 'd');
    assert("size"@ != "disk"@);
    assert("size"@[0] == 's' && "used"@[0] == 'u');
    assert("size"@ != "used"@);
    assert("size"@[0] == 's' && "free"@[0] == 'f');
    assert("size"@ != "free"@);
    assert(spec_parse_col("size"@) == Some(Col::Size));
}

#[verifier::rlimit(50)]
proof fn lemma_parse_tokens_inodes_used()
    ensures
        spec_parse_col(spec_col_name(Col::InodesUsed)) == Some(Col::InodesUsed),
        forall|i: int|
            0 <= i < spec_col_aliases(Col::InodesUsed).len() ==> spec_parse_col(
                spec_col_aliases(Col::InodesUsed)[i],
            ) == Some(Col::InodesUsed),
{
    reveal_strlit("inodes_used");
    reveal_strlit("iused");
    reveal_strlit("label");
    reveal_strlit("use_percent");
    assert("inodes_used"@[0] == 'i' && "use_percent"@[0] == 'u');
    assert("inodes_used"@ != "use_percent"@);
    assert(spec_parse_col("inodes_used"@) == Some(Col::InodesUsed));
    assert("iused"@[0] == 'i' && "label"@[0] == 'l');
    assert("iused"@ != "label"@);
    assert(spec_parse_col("iused"@) == Some(Col::InodesUsed));
}

#[verifier::rlimit(50)]
proof fn lemma_parse_tokens_inodes()
    ensures
        spec_parse_col(spec_col_name(Col::InodesUse)) == Some(Col::InodesUse),
        forall|i: int|
            0 <= i < spec_col_aliases(Col::InodesUse).len() ==> spec_parse_col(
                spec_col_aliases(Col::InodesUse)[i],
            ) == Some(Col::InodesUse),
{
    reveal_strlit("dev");
    reveal_strlit("device");
    reveal_strlit("disk");
    reveal_strlit("dsk");
    reveal_strlit("filesystem");
    reveal_strlit("free");
    reveal_strlit("ino");
    reveal_strlit("inodes");
    reveal_strlit("inodes_use");
    reveal_strlit("iuse");
    reveal_strlit("rem");
    reveal_strlit("remote");
    reveal_strlit("size");
    reveal_strlit("type");
    reveal_strlit("use");
    reveal_strlit("used");
    assert("inodes"@[0] == 'i' && "device"@[0] == 'd');
    assert("inodes"@ != "device"@);
    assert("inodes"@[0] == 'i' && "remote"@[0] == 'r');
    assert("inodes"@ != "remote"@);
    assert(spec_parse_col("inodes"@) == Some(Col::InodesUse));
    assert("ino"@[0] == 'i' && "dev"@[0] == 'd');
    assert("ino"@ != "dev"@);
    assert("ino"@[0] == 'i' && "rem"@[0] == 'r');
    assert("ino"@ != "rem"@);
    assert("ino"@[0] == 'i' && "dsk"@[0] == 'd');
    assert("ino"@ != "dsk"@);
    assert("ino"@[0] == 'i' && "use"@[0] == 'u');
    assert("ino"@ != "use"@);
    assert(spec_parse_col("ino"@) == Some(Col::InodesUse));
    assert("inodes_use"@[0] == 'i' && "filesystem"@[0] == 'f');
    assert("inodes_use"@ != "filesystem"@);
    assert(spec_parse_col("inodes_use"@) == Some(Col::InodesUse));
    assert("iuse"@[0] == 'i' && "type"@[0] == 't');
    assert("iuse"@ != "type"@);
    assert("iuse"@[0] == 'i' && "disk"@[0] == 'd');
    assert("iuse"@ != "disk"@);
    assert("iuse"@[0] == 'i' && "used"@[0] == 'u');
    assert("iuse"@ != "used"@);
    assert("iuse"@[0] == 'i' && "free"@[0] == 'f');
    assert("iuse"@ != "free"@);
    assert("iuse"@[0] == 'i' && "size"@[0] == 's');
    assert("iuse"@ != "size"@);
    assert(spec_parse_col("iuse"@) == Some(Col::InodesUse));
}

#[verifier::rlimit(50)]
proof fn lemma_parse_tokens_inodes_use_percent()
    ensures
        spec_parse_col(spec_col_name(Col::InodesUsePercent)) == Some(Col::InodesUsePercent),
        forall|i: int|
            0 <= i < spec_col_aliases(Col::InodesUsePercent).len() ==> spec_parse_col(
                spec_col_aliases(Col::InodesUsePercent)[i],
            ) == Some(Col::InodesUsePercent),
{
    reveal_strlit("free_percent");
    reveal_strlit("inodes_use_percent");
    reveal_strlit("iuse_percent");
    assert(spec_parse_col("inodes_use_percent"@) == Some(Col::InodesUsePercent));
    assert("iuse_percent"@[0] == 'i' && "free_percent"@[0] == 'f');
    assert("iuse_percent"@ != "free_percent"@);
    assert(spec_parse_col("iuse_percent"@) == Some(Col::InodesUsePercent));
}

#[verifier::rlimit(50)]
proof fn lemma_parse_tokens_inodes_free()
    ensures
        spec_parse_col(spec_col_name(Col::InodesFree)) == Some(Col::InodesFree),
        forall|i: int|
            0 <= i < spec_col_aliases(Col::InodesFree).len() ==> spec_parse_col(
                spec_col_aliases(Col::InodesFree)[i],
            ) == Some(Col::InodesFree),
{
    reveal_strlit("ifree");
    reveal_strlit("inodes_free");
    reveal_strlit("inodes_used");
    reveal_strlit("iused");
    reveal_strlit("label");
    reveal_strlit("use_percent");
    assert("inodes_free"@[0] == 'i' && "use_percent"@[0] == 'u');
    assert("inodes_free"@ != "use_percent"@);
    assert("inodes_free"@[7] == 'f' && "inodes_used"@[7] == 'u');
    assert("inodes_free"@ != "inodes_used"@);
    assert(spec_parse_col("inodes_free"@) == Some(Col::InodesFree));
    assert("ifree"@[0] == 'i' && "label"@[0] == 'l');
    assert("ifree"@ != "label"@);
    assert("ifree"@[1] == 'f' && "iused"@[1] == 'u');
    assert("ifree"@ != "iused"@);
    assert(spec_parse_col("ifree"@) == Some(Col::InodesFree));
}

#[verifier::rlimit(50)]
proof fn lemma_parse_tokens_inodes_total()
    ensures
        spec_parse_col(spec_col_name(Col::InodesCount)) == Some(Col::InodesCount),
        forall|i: int|
            0 <= i < spec_col_aliases(Col::InodesCount).len() ==> spec_parse_col(
                spec_col_aliases(Col::InodesCount)[i],
            ) == Some(Col::InodesCount),
{
    reveal_strlit("device");
    reveal_strlit("free_percent");
    reveal_strlit("inodes");
    reveal_strlit("inodes_count");
    reveal_strlit("inodes_total");
    reveal_strlit("itotal");
    reveal_strlit("iuse_percent");
    reveal_strlit("remote");
    assert("inodes_total"@[0] == 'i' && "free_percent"@[0] == 'f');
    assert("inodes_total"@ != "free_percent"@);
    assert("inodes_total"@[1] == 'n' && "iuse_percent"@[1] == 'u');
    assert("inodes_total"@ != "iuse_percent"@);
    assert(spec_parse_col("inodes_total"@) == Some(Col::InodesCount));
    assert("inodes_count"@[0] == 'i' && "free_percent"@[0] == 'f');
    assert("inodes_count"@ != "free_percent"@);
    assert("inodes_count"@[1] == 'n' && "iuse_percent"@[1] == 'u');
    assert("inodes_count"@ != "iuse_percent"@);
    assert("inodes_count"@[7] == 'c' && "inodes_total"@[7] == 't');
    assert("inodes_count"@ != "inodes_total"@);
    assert(spec_parse_col("inodes_count"@) == Some(Col::InodesCount));
    assert("itotal"@[0] == 'i' && "device"@[0] == 'd');
    assert("itotal"@ != "device"@);
    assert("itotal"@[0] == 'i' && "remote"@[0] == 'r');
    assert("itotal"@ != "remote"@);
    assert("itotal"@[1] == 't' && "inodes"@[1] == 'n');
    assert("itotal"@ != "inodes"@);
    assert(spec_parse_col("itotal"@) == Some(Col::InodesCount));
}

#[verifier::rlimit(50)]
proof fn lemma_parse_tokens_mount()
    ensures
        spec_parse_col(spec_col_name(Col::MountPoint)) == Some(Col::MountPoint),
        forall|i: int|
            0 <= i < spec_col_aliases(Col::MountPoint).len() ==> spec_parse_col(
                spec_col_aliases(Col::MountPoint)[i],
            ) == Some(Col::MountPoint),
{
    reveal_strlit("fs");
    reveal_strlit("id");
    reveal_strlit("ifree");
    reveal_strlit("inodes_free");
    reveal_strlit("inodes_used");
    reveal_strlit("iused");
    reveal_strlit("label");
    reveal_strlit("mount");
    reveal_strlit("mount_point");
    reveal_strlit("mp");
    reveal_strlit("use_percent");
    assert("mount"@[0] == 'm' && "label"@[0] == 'l');
    assert("mount"@ != "label"@);
    assert("mount"@[0] == 'm' && "iused"@[0] == 'i');
    assert("mount"@ != "iused"@);
    assert("mount"@[0] == 'm' && "ifree"@[0] == 'i');
    assert("mount"@ != "ifree"@);
    assert(spec_parse_col("mount"@) == Some(Col::MountPoint));
    assert("mount_point"@[0] == 'm' && "use_percent"@[0] == 'u');
    assert("mount_point"@ != "use_percent"@);
    assert("mount_point"@[0] == 'm' && "inodes_used"@[0] == 'i');
    assert("mount_point"@ != "inodes_used"@);
    assert("mount_point"@[0] == 'm' && "inodes_free"@[0] == 'i');
    assert("mount_point"@ != "inodes_free"@);
    assert(spec_parse_col("mount_point"@) == Some(Col::MountPoint));
    assert("mp"@[0] == 'm' && "id"@[0] == 'i');
    assert("mp"@ != "id"@);
    assert("mp"@[0] == 'm' && "fs"@[0] == 'f');
    assert("mp"@ != "fs"@);
    assert(spec_parse_col("mp"@) == Some(Col::MountPoint));
}

#[verifier::rlimit(50)]
proof fn lemma_parse_tokens_fsname()
    ensures
        spec_parse_col(spec_col_name(Col::FsName)) == Some(Col::FsName),
        forall|i: int|
            0 <= i < spec_col_aliases(Col::FsName).len() ==> spec_parse_col(
                spec_col_aliases(Col::FsName)[i],
            ) == Some(Col::FsName),
{
    reveal_strlit("device");
    reveal_strlit("fs_name");
    reveal_strlit("fsname");
    reveal_strlit("inodes");
    reveal_strlit("itotal");
    reveal_strlit("remote");
    assert("fsname"@[0] == 'f' && "device"@[0] == 'd');
    assert("fsname"@ != "device"@);
    assert("fsname"@[0] == 'f' && "remote"@[0] == 'r');
    assert("fsname"@ != "remote"@);
    assert("fsname"@[0] == 'f' && "inodes"@[0] == 'i');
    assert("fsname"@ != "inodes"@);
    assert("fsname"@[0] == 'f' && "itotal"@[0] == 'i');
    assert("fsname"@ != "itotal"@);
    assert(spec_parse_col("fsname"@) == Some(Col::FsName));
    assert(spec_parse_col("fs_name"@) == Some(Col::FsName));
}

#[verifier::rlimit(50)]
proof fn lemma_parse_tokens_uuid()
    ensures
        spec_parse_col(spec_col_name(Col::Uuid)) == Some(Col::Uuid),
        forall|i: int|
            0 <= i < spec_col_aliases(Col::Uuid).len() ==> spec_parse_col(
                spec_col_aliases(Col::Uuid)[i],
            ) == Some(Col::Uuid),
{
    reveal_strlit("disk");
    reveal_strlit("free");
    reveal_strlit("iuse");
    reveal_strlit("size");
    reveal_strlit("type");
    reveal_strlit("used");
    reveal_strlit("uuid");
    assert("uuid"@[0] == 'u' && "type"@[0] == 't');
    assert("uuid"@ != "type"@);
    assert("uuid"@[0] == 'u' && "disk"@[0] == 'd');
    assert("uuid"@ != "disk"@);
    assert("uuid"@[1] == 'u' && "used"@[1] == 's');
    assert("uuid"@ != "used"@);
    assert("uuid"@[0] == 'u' && "free"@[0] == 'f');
    assert("uuid"@ != "free"@);
    assert("uuid"@[0] == 'u' && "size"@[0] == 's');
    assert("uuid"@ != "size"@);
    assert("uuid"@[0] == 'u' && "iuse"@[0] == 'i');
    assert("uuid"@ != "iuse"@);
    assert(spec_parse_col("uuid"@) == Some(Col::Uuid));
}

#[verifier::rlimit(50)]
proof fn lemma_parse_tokens_partuuid()
    ensures
        spec_parse_col(spec_col_name(Col::PartUuid)) == Some(Col::PartUuid),
        forall|i: int|
            0 <= i < spec_col_aliases(Col::PartUuid).len() ==> spec_parse_col(
                spec_col_aliases(Col::PartUuid)[i],
            ) == Some(Col::PartUuid),
{
    reveal_strlit("device_id");
    reveal_strlit("part_uuid");
    reveal_strlit("partuuid");
    assert(spec_parse_col("partuuid"@) == Some(Col::PartUuid));
    assert("part_uuid"@[0] == 'p' && "device_id"@[0] == 'd');
    assert("part_uuid"@ != "device_id"@);
    assert(spec_parse_col("part_uuid"@) == Some(Col::PartUuid));
}

#[verifier::rlimit(50)]
proof fn lemma_parse_tokens_stripe_count()
    ensures
        spec_parse_col(spec_col_name(Col::StripeCount)) == Some(Col::StripeCount),
        forall|i: int|
            0 <= i < spec_col_aliases(Col::StripeCount).len() ==> spec_parse_col(
                spec_col_aliases(Col::StripeCount)[i],
            ) == Some(Col::StripeCount),
{
    reveal_strlit("free_percent");
    reveal_strlit("fs_name");
    reveal_strlit("inodes_count");
    reveal_strlit("inodes_total");
    reveal_strlit("iuse_percent");
    reveal_strlit("stripe_count");
    reveal_strlit("stripes");
    assert("stripe_count"@[0] == 's' && "free_percent"@[0] == 'f');
    assert("stripe_count"@ != "free_percent"@);
    assert("stripe_count"@[0] == 's' && "iuse_percent"@[0] == 'i');
    assert("stripe_count"@ != "iuse_percent"@);
    assert("stripe_count"@[0] == 's' && "inodes_total"@[0] == 'i');
    assert("stripe_count"@ != "inodes_total"@);
    assert("stripe_count"@[0] == 's' && "inodes_count"@[0] == 'i');
    assert("stripe_count"@ != "inodes_count"@);
    assert(spec_parse_col("stripe_count"@) == Some(Col::StripeCount));
    assert("stripes"@[0] == 's' && "fs_name"@[0] == 'f');
    assert("stripes"@ != "fs_name"@);
    assert(spec_parse_col("stripes"@) == Some(Col::StripeCount));
}

#[verifier::rlimit(50)]
proof fn lemma_parse_tokens_stripe_size()
    ensures
        spec_parse_col(spec_col_name(Col::StripeSize)) == Some(Col::StripeSize),
        forall|i: int|
            0 <= i < spec_col_aliases(Col::StripeSize).len() ==> spec_parse_col(
                spec_col_aliases(Col::StripeSize)[i],
            ) == Some(Col::StripeSize),
{
    reveal_strlit("inodes_free");
    reveal_strlit("inodes_used");
    reveal_strlit("mount_point");
    reveal_strlit("stripe_size");
    reveal_strlit("use_percent");
    assert("stripe_size"@[0] == 's' && "use_percent"@[0] == 'u');
    assert("stripe_size"@ != "use_percent"@);
    assert("stripe_size"@[0] == 's' && "inodes_used"@[0] == 'i');
    assert("stripe_size"@ != "inodes_used"@);
    assert("stripe_size"@[0] == 's' && "inodes_free"@[0] == 'i');
    assert("stripe_size"@ != "inodes_free"@);
    assert("stripe_size"@[0] == 's' && "mount_point"@[0] == 'm');
    assert("stripe_size"@ != "mount_point"@);
    assert(spec_parse_col("stripe_size"@) == Some(Col::StripeSize));
}

#[verifier::rlimit(50)]
proof fn lemma_parse_tokens_lustre_version()
    ensures
        spec_parse_col(spec_col_name(Col::LustreVersion)) == Some(Col::LustreVersion),
        forall|i: int|
            0 <= i < spec_col_aliases(Col::LustreVersion).len() ==> spec_parse_col(
                spec_col_aliases(Col::LustreVersion)[i],
            ) == Some(Col::LustreVersion),
{
    reveal_strlit("fs_name");
    reveal_strlit("lus_ver");
    reveal_strlit("lustre_version");
    reveal_strlit("stripes");
    assert(spec_parse_col("lustre_version"@) == Some(Col::LustreVersion));
    assert("lus_ver"@[0] == 'l' && "fs_name"@[0] == 'f');
    assert("lus_ver"@ != "fs_name"@);
    assert("lus_ver"@[0] == 'l' && "stripes"@[0] == 's');
    assert("lus_ver"@ != "stripes"@);
    assert(spec_parse_col("lus_ver"@) == Some(Col::LustreVersion));
}

#[verifier::rlimit(50)]
proof fn lemma_parse_tokens_pool_name()
    ensures
        spec_parse_col(spec_col_name(Col::PoolName)) == Some(Col::PoolName),
        forall|i: int|
            0 <= i < spec_col_aliases(Col::PoolName).len() ==> spec_parse_col(
                spec_col_aliases(Col::PoolName)[i],
            ) == Some(Col::PoolName),
{
    reveal_strlit("device_id");
    reveal_strlit("disk");
    reveal_strlit("free");
    reveal_strlit("iuse");
    reveal_strlit("part_uuid");
    reveal_strlit("pool");
    reveal_strlit("pool_name");
    reveal_strlit("size");
    reveal_strlit("type");
    reveal_strlit("used");
    reveal_strlit("uuid");
    assert("pool_name"@[0] == 'p' && "device_id"@[0] == 'd');
    assert("pool_name"@ != "device_id"@);
    assert("pool_name"@[1] == 'o' && "part_uuid"@[1] == 'a');
    assert("pool_name"@ != "part_uuid"@);
    assert(spec_parse_col("pool_name"@) == Some(Col::PoolName));
    assert("pool"@[0] == 'p' && "type"@[0] == 't');
    assert("pool"@ != "type"@);
    assert("pool"@[0] == 'p' && "disk"@[0] == 'd');
    assert("pool"@ != "disk"@);
    assert("pool"@[0] == 'p' && "used"@[0] == 'u');
    assert("pool"@ != "used"@);
    assert("pool"@[0] == 'p' && "free"@[0] == 'f');
    assert("pool"@ != "free"@);
    assert("pool"@[0] == 'p' && "size"@[0] == 's');
    assert("pool"@ != "size"@);
    assert("pool"@[0] == 'p' && "iuse"@[0] == 'i');
    assert("pool"@ != "iuse"@);
    assert("pool"@[0] == 'p' && "uuid"@[0] == 'u');
    assert("pool"@ != "uuid"@);
    assert(spec_parse_col("pool"@) == Some(Col::PoolName));
}

#[verifier::rlimit(50)]
proof fn lemma_parse_tokens_component_type()
    ensures
        spec_parse_col(spec_col_name(Col::ComponentType)) == Some(Col::ComponentType),
        forall|i: int|
            0 <= i < spec_col_aliases(Col::ComponentType).len() ==> spec_parse_col(
                spec_col_aliases(Col::ComponentType)[i],
            ) == Some(Col::ComponentType),
{
    reveal_strlit("comp_type");
    reveal_strlit("component_type");
    reveal_strlit("device_id");
    reveal_strlit("lustre_version");
    reveal_strlit("part_uuid");
    reveal_strlit("pool_name");
    assert("component_type"@[0] == 'c' && "lustre_version"@[0] == 'l');
    assert("component_type"@ != "lustre_version"@);
    assert(spec_parse_col("component_type"@) == Some(Col::ComponentType));
    assert("comp_type"@[0] == 'c' && "device_id"@[0] == 'd');
    assert("comp_type"@ != "device_id"@);
    assert("comp_type"@[0] == 'c' && "part_uuid"@[0] == 'p');
    assert("comp_type"@ != "part_uuid"@);
    assert("comp_type"@[0] == 'c' && "pool_name"@[0] == 'p');
    assert("comp_type"@ != "pool_name"@);
    assert(spec_parse_col("comp_type"@) == Some(Col::ComponentType));
}

#[verifier::rlimit(50)]
proof fn lemma_parse_tokens_component_index()
    ensures
        spec_parse_col(spec_col_name(Col::ComponentIndex)) == Some(Col::ComponentIndex),
        forall|i: int|
            0 <= i < spec_col_aliases(Col::ComponentIndex).len() ==> spec_parse_col(
                spec_col_aliases(Col::ComponentIndex)[i],
            ) == Some(Col::ComponentIndex),
{
    reveal_strlit("comp_idx");
    reveal_strlit("component_index");
    reveal_strlit("partuuid");
    assert(spec_parse_col("component_index"@) == Some(Col::ComponentIndex));
    assert("comp_idx"@[0] == 'c' && "partuuid"@[0] == 'p');
    assert("comp_idx"@ != "partuuid"@);
    assert(spec_parse_col("comp_idx"@) == Some(Col::ComponentIndex));
}

#[verifier::rlimit(50)]
proof fn lemma_parse_tokens_mirror_count()
    ensures
        spec_parse_col(spec_col_name(Col::MirrorCount)) == Some(Col::MirrorCount),
        forall|i: int|
            0 <= i < spec_col_aliases(Col::MirrorCount).len() ==> spec_parse_col(
                spec_col_aliases(Col::MirrorCount)[i],
            ) == Some(Col::MirrorCount),
{
    reveal_strlit("free_percent");
    reveal_strlit("fs_name");
    reveal_strlit("inodes_count");
    reveal_strlit("inodes_total");
    reveal_strlit("iuse_percent");
    reveal_strlit("lus_ver");
    reveal_strlit("mirror_count");
    reveal_strlit("mirrors");
    reveal_strlit("stripe_count");
    reveal_strlit("stripes");
    assert("mirror_count"@[0] == 'm' && "free_percent"@[0] == 'f');
    assert("mirror_count"@ != "free_percent"@);
    assert("mirror_count"@[0] == 'm' && "iuse_percent"@[0] == 'i');
    assert("mirror_count"@ != "iuse_percent"@);
    assert("mirror_count"@[0] == 'm' && "inodes_total"@[0] == 'i');
    assert("mirror_count"@ != "inodes_total"@);
    assert("mirror_count"@[0] == 'm' && "inodes_count"@[0] == 'i');
    assert("mirror_count"@ != "inodes_count"@);
    assert("mirror_count"@[0] == 'm' && "stripe_count"@[0] == 's');
    assert("mirror_count"@ != "stripe_count"@);
    assert(spec_parse_col("mirror_count"@) == Some(Col::MirrorCount));
    assert("mirrors"@[0] == 'm' && "fs_name"@[0] == 'f');
    assert("mirrors"@ != "fs_name"@);
    assert("mirrors"@[0] == 'm' && "stripes"@[0] == 's');
    assert("mirrors"@ != "stripes"@);
    assert("mirrors"@[0] == 'm' && "lus_ver"@[0] == 'l');
    assert("mirrors"@ != "lus_ver"@);
    assert(spec_parse_col("mirrors"@) == Some(Col::MirrorCount));
}

/// Column parsing is a left inverse of formatting: the canonical name of
/// every column parses back to that column.
pub proof fn law_parse_canonical_name(c: Col)
    ensures
        spec_parse_col(spec_col_name(c)) == Some(c),
{
    match c {
        Col::Id => lemma_parse_tokens_id(),
        Col::Dev => lemma_parse_tokens_dev(),
        Col::Filesystem => lemma_parse_tokens_fs(),
        Col::Label => lemma_parse_tokens_label(),
        Col::Type => lemma_parse_tokens_type(),
        Col::Remote => lemma_parse_tokens_remote(),
        Col::Disk => lemma_parse_tokens_disk(),
        Col::Used => lemma_parse_tokens_used(),
        Col::Use => lemma_parse_tokens_use(),
        Col::UsePercent => lemma_parse_tokens_use_percent(),
        Col::Free => lemma_parse_tokens_free(),
        Col::FreePercent => lemma_parse_tokens_free_percent(),
        Col::Size => lemma_parse_tokens_size(),
        Col::InodesUsed => lemma_parse_tokens_inodes_used(),
        Col::InodesUse => lemma_parse_tokens_inodes(),
        Col::InodesUsePercent => lemma_parse_tokens_inodes_use_percent(),
        Col::InodesFree => lemma_parse_tokens_inodes_free(),
        Col::InodesCount => lemma_parse_tokens_inodes_total(),
        Col::MountPoint => lemma_parse_tokens_mount(),
        Col::FsName => lemma_parse_tokens_fsname(),
        Col::Uuid => lemma_parse_tokens_uuid(),
        Col::PartUuid => lemma_parse_tokens_partuuid(),
        Col::StripeCount => lemma_parse_tokens_stripe_count(),
        Col::StripeSize => lemma_parse_tokens_stripe_size(),
        Col::LustreVersion => lemma_parse_tokens_lustre_version(),
        Col::PoolName => lemma_parse_tokens_pool_name(),
        Col::ComponentType => lemma_parse_tokens_component_type(),
        Col::ComponentIndex => lemma_parse_tokens_component_index(),
        Col::MirrorCount => lemma_parse_tokens_mirror_count(),
    }
}

/// Column parsing resolves every alias of every column to that column.
pub proof fn law_parse_alias(c: Col, i: int)
    requires
        0 <= i < spec_col_aliases(c).len(),
    ensures
        spec_parse_col(spec_col_aliases(c)[i]) == Some(c),
{
    match c {
        Col::Id => lemma_parse_tokens_id(),
        Col::Dev => lemma_parse_tokens_dev(),
        Col::Filesystem => lemma_parse_tokens_fs(),
        Col::Label => lemma_parse_tokens_label(),
        Col::Type => lemma_parse_tokens_type(),
        Col::Remote => lemma_parse_tokens_remote(),
        Col::Disk => lemma_parse_tokens_disk(),
        Col::Used => lemma_parse_tokens_used(),
        Col::Use => lemma_parse_tokens_use(),
        Col::UsePercent => lemma_parse_tokens_use_percent(),
        Col::Free => lemma_parse_tokens_free(),
        Col::FreePercent => lemma_parse_tokens_free_percent(),
        Col::Size => lemma_parse_tokens_size(),
        Col::InodesUsed => lemma_parse_tokens_inodes_used(),
        Col::InodesUse => lemma_parse_tokens_inodes(),
        Col::InodesUsePercent => lemma_parse_tokens_inodes_use_percent(),
        Col::InodesFree => lemma_parse_tokens_inodes_free(),
        Col::InodesCount => lemma_parse_tokens_inodes_total(),
        Col::MountPoint => lemma_parse_tokens_mount(),
        Col::FsName => lemma_parse_tokens_fsname(),
        Col::Uuid => lemma_parse_tokens_uuid(),
        Col::PartUuid => lemma_parse_tokens_partuuid(),
        Col::StripeCount => lemma_parse_tokens_stripe_count(),
        Col::StripeSize => lemma_parse_tokens_stripe_size(),
        Col::LustreVersion => lemma_parse_tokens_lustre_version(),
        Col::PoolName => lemma_parse_tokens_pool_name(),
        Col::ComponentType => lemma_parse_tokens_component_type(),
        Col::ComponentIndex => lemma_parse_tokens_component_index(),
        Col::MirrorCount => lemma_parse_tokens_mirror_count(),
    }
}

} // verus!
