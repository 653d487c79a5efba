//! Space and inode usage reporting for mounted filesystems, extended to
//! understand a clustered storage backend whose capacity is split across
//! many independent targets (two families: metadata targets and object
//! targets) instead of being exposed as one ordinary mount.
//!
//! The crate covers the whole decision pipeline: classifying the mounts the
//! kernel reports, driving the per-target discovery protocol, merging the
//! two data sources without duplication, deduplicating ordinary mounts that
//! share a device, and ordering the rows for display. Reading the mount
//! table, querying the native client and rendering are left to callers.

pub mod col;
pub mod cols;
pub mod csv;
pub mod dedup;
pub mod lustre;
pub mod meta;
pub mod mount;
pub mod normal;
pub mod order;
pub mod pipeline;
pub mod sort;
pub mod strings;

pub use meta::{get_lustre_info, set_lustre_info, LustreInfo, LustreInfoTable};
pub use mount::{DeviceId, Inodes, Mount, MountInfo, MountKind, Stats, StatsResult};
