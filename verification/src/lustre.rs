//! Clustered-storage discovery: the per-target probe protocol, the records
//! built from each probed target, the synthesized per-filesystem aggregate
//! record, and the parsing of component names and synthesized paths.
//!
//! The native statistics call itself is a blocking query the caller makes;
//! this module owns every decision around it: when the per-index loop stops,
//! which result codes produce a record, and what each record holds.

use vstd::prelude::*;
use vstd::string::StrSliceExecFns;
use crate::meta::LustreInfo;
use crate::mount::{DeviceId, Inodes, Mount, MountInfo, MountKind, Stats, StatsResult};
use crate::strings::{
    lemma_find_char_from_correct, push_char, push_str, seq_contains, spec_find_char_from,
    spec_find_from, spec_parse_u32, spec_u32_dec, spec_u32_hex4, str_contains, str_find,
    str_find_char_from, parse_u32, u32_to_dec_str, u32_to_hex4_str,
};

verus! {

/// The index ceiling standing for "all targets": reaching it terminates a
/// discovery loop even without a terminal result code.
pub const LOV_ALL_STRIPES: u32 = 65535;

/// The native result code meaning no target exists at or beyond this index.
pub const CODE_NO_DEVICE: i32 = -38;

/// The native result code meaning the target at this index is transiently
/// busy and the next index should be tried.
pub const CODE_TRY_AGAIN: i32 = -11;

/// The native result code meaning the target exists but is administratively
/// inactive and returned no figures.
pub const CODE_NO_DATA: i32 = -61;

/// Raw per-target statistics, with the layout the native statistics call
/// fills in.
#[allow(non_camel_case_types)]
#[derive(Clone, Copy, Debug)]
pub struct obd_statfs {
    pub os_type: u64,
    pub os_blocks: u64,
    pub os_bfree: u64,
    pub os_bavail: u64,
    pub os_files: u64,
    pub os_ffree: u64,
    pub os_fsid: [u8; 40],
    pub os_bsize: u32,
    pub os_namelen: u32,
    pub os_maxbytes: u64,
    pub os_state: u32,
    pub os_fprecreated: u32,
    pub os_granted: u32,
    pub os_spare3: u32,
    pub os_spare4: u32,
    pub os_spare5: u32,
    pub os_spare6: u32,
    pub os_spare7: u32,
    pub os_spare8: u32,
    pub os_spare9: u32,
}

impl Default for obd_statfs {
    /// An all-zero statistics buffer, as handed to the native call.
    fn default() -> (r: Self)
        ensures
            r.os_type == 0,
            r.os_blocks == 0,
            r.os_bfree == 0,
            r.os_bavail == 0,
            r.os_files == 0,
            r.os_ffree == 0,
            r.os_fsid@ == Seq::new(40, |i: int| 0u8),
            r.os_bsize == 0,
            r.os_namelen == 0,
            r.os_maxbytes == 0,
            r.os_state == 0,
            r.os_fprecreated == 0,
            r.os_granted == 0,
            r.os_spare3 == 0,
            r.os_spare4 == 0,
            r.os_spare5 == 0,
            r.os_spare6 == 0,
            r.os_spare7 == 0,
            r.os_spare8 == 0,
            r.os_spare9 == 0,
    {
        let fsid: [u8; 40] = [0u8; 40];
        proof {
            assert(fsid@ =~= Seq::new(40, |i: int| 0u8));
        }
        Self {
            os_type: 0,
            os_blocks: 0,
            os_bfree: 0,
            os_bavail: 0,
            os_files: 0,
            os_ffree: 0,
            os_fsid: fsid,
            os_bsize: 0,
            os_namelen: 0,
            os_maxbytes: 0,
            os_state: 0,
            os_fprecreated: 0,
            os_granted: 0,
            os_spare3: 0,
            os_spare4: 0,
            os_spare5: 0,
            os_spare6: 0,
            os_spare7: 0,
            os_spare8: 0,
            os_spare9: 0,
        }
    }
}

/// The two backend target families of a clustered filesystem.
#[derive(Clone, Copy, Debug, PartialEq, Eq, Structural)]
pub enum TargetFamily {
    /// metadata target
    Mdt,
    /// object (data) target
    Ost,
}

/// The tag a family is spelled with inside names and synthesized paths.
pub open spec fn spec_family_tag(f: TargetFamily) -> Seq<char> {
    match f {
        TargetFamily::Mdt => "MDT"@,
        TargetFamily::Ost => "OST"@,
    }
}

pub fn family_tag(f: TargetFamily) -> (r: &'static str)
    ensures
        r@ == spec_family_tag(f),
{
    match f {
        TargetFamily::Mdt => "MDT",
        TargetFamily::Ost => "OST",
    }
}

/// One answer of the native per-target statistics query: the result code the
/// call returned and what it filled in.
#[derive(Debug)]
pub struct TargetProbe {
    /// the native result code
    pub rc: i32,
    /// the statistics buffer after the call
    pub statfs: obd_statfs,
    /// the component identifier after the call, decoded to a string
    pub uuid: String,
}

/// How one per-index probe advances the discovery loop: stop the loop for
/// this family, skip this index, or emit one target record (with figures
/// when the target was active).
#[derive(Clone, Copy, Debug, PartialEq, Eq, Structural)]
pub enum ProbeOutcome {
    Terminate,
    Skip,
    Emit { active: bool },
}

/// The outcome a native result code stands for: "no such device" ends the
/// loop, "try again" skips the index, success and "no data available" each
/// produce a record, and any other code is treated as target-absent.
pub open spec fn spec_classify(rc: int) -> ProbeOutcome {
    if rc == CODE_NO_DEVICE {
        ProbeOutcome::Terminate
    } else if rc == 0 {
        ProbeOutcome::Emit { active: true }
    } else if rc == CODE_NO_DATA {
        ProbeOutcome::Emit { active: false }
    } else {
        ProbeOutcome::Skip
    }
}

pub fn classify_statfs_code(rc: i32) -> (r: ProbeOutcome)
    ensures
        r == spec_classify(rc as int),
{
    if rc == CODE_NO_DEVICE {
        ProbeOutcome::Terminate
    } else if rc == 0 {
        ProbeOutcome::Emit { active: true }
    } else if rc == CODE_NO_DATA {
        ProbeOutcome::Emit { active: false }
    } else {
        ProbeOutcome::Skip
    }
}

/// The component name a target record carries: the component identifier the
/// call reported, or, when it was empty, a `FAMILY:index` placeholder with
/// the index in four hexadecimal digits.
pub open spec fn spec_component_name(f: TargetFamily, index: u32, uuid: Seq<char>) -> Seq<char> {
    if uuid.len() == 0 {
        spec_family_tag(f) + seq![':'] + spec_u32_hex4(index as nat)
    } else {
        uuid
    }
}

/// The synthesized per-target mount point: the real mount directory with a
/// bracketed family-and-index annotation, unique per target.
pub open spec fn spec_component_mount_point(
    mntdir: Seq<char>,
    f: TargetFamily,
    index: u32,
) -> Seq<char> {
    mntdir + seq!['['] + spec_family_tag(f) + seq![':'] + spec_u32_dec(index as nat) + seq![']']
}

/// The figures a target record carries: the decoded statistics on success,
/// an explicit unreachable marker for an inactive target.
pub open spec fn spec_component_stats(st: obd_statfs, active: bool) -> StatsResult {
    if active {
        StatsResult::Known(
            Stats {
                bsize: st.os_bsize as u64,
                blocks: st.os_blocks,
                bused: if st.os_bavail <= st.os_blocks {
                    (st.os_blocks - st.os_bavail) as u64
                } else {
                    0
                },
                bfree: st.os_bfree,
                bavail: st.os_bavail,
                inodes: if st.os_files > 0 {
                    Some(Inodes { files: st.os_files, ffree: st.os_ffree, favail: st.os_ffree })
                } else {
                    None
                },
            },
        )
    } else {
        StatsResult::Unreachable
    }
}

/// Everything a record for one backend target holds.
pub open spec fn spec_is_component_record(
    m: Mount,
    mntdir: Seq<char>,
    fsname: Seq<char>,
    st: obd_statfs,
    uuid: Seq<char>,
    f: TargetFamily,
    index: u32,
    active: bool,
) -> bool {
    &&& m.kind == MountKind::ClusterComponent
    &&& m.info.id is None
    &&& m.info.parent is None
    &&& m.info.dev == DeviceId {
        major: if f is Mdt {
            1
        } else {
            2
        },
        minor: index,
    }
    &&& m.info.root@ == Seq::<char>::empty()
    &&& m.info.mount_point@ == spec_component_mount_point(mntdir, f, index)
    &&& m.info.fs@ == spec_component_name(f, index, uuid)
    &&& m.info.fs_type@ == "lustre"@
    &&& !m.info.bound
    &&& m.stats == spec_component_stats(st, active)
    &&& m.disk is None
    &&& (m.fs_label matches Some(l) && l@ == fsname + seq!['-'] + spec_family_tag(f))
    &&& (if uuid.len() == 0 {
        m.uuid is None
    } else {
        m.uuid matches Some(u) && u@ == uuid
    })
    &&& m.part_uuid is None
}

/// Builds the record for one backend target out of one probe's answer.
pub fn create_lustre_component_mount(
    mntdir: &str,
    fsname: &str,
    stat_buf: &obd_statfs,
    uuid: &str,
    component_type: TargetFamily,
    index: u32,
    rc: i32,
) -> (r: Mount)
    requires
        index < LOV_ALL_STRIPES,
        spec_classify(rc as int) is Emit,
    ensures
        spec_is_component_record(
            r,
            mntdir@,
            fsname@,
            *stat_buf,
            uuid@,
            component_type,
            index,
            rc == 0,
        ),
{
    let tag = family_tag(component_type);
    let component_name: String = if uuid.unicode_len() == 0 {
        let mut s = String::new();
        push_str(&mut s, tag);
        push_char(&mut s, ':');
        let hex = u32_to_hex4_str(index);
        push_str(&mut s, hex.as_str());
        proof {
            assert(s@ =~= spec_component_name(component_type, index, uuid@));
        }
        s
    } else {
        uuid.to_owned()
    };

    let mut mount_point = String::new();
    push_str(&mut mount_point, mntdir);
    push_char(&mut mount_point, '[');
    push_str(&mut mount_point, tag);
    push_char(&mut mount_point, ':');
    let dec = u32_to_dec_str(index);
    push_str(&mut mount_point, dec.as_str());
    push_char(&mut mount_point, ']');
    proof {
        assert(mount_point@ =~= spec_component_mount_point(mntdir@, component_type, index));
    }

    let mut label = String::new();
    push_str(&mut label, fsname);
    push_char(&mut label, '-');
    push_str(&mut label, tag);
    proof {
        assert(label@ =~= fsname@ + seq!['-'] + spec_family_tag(component_type));
    }

    let active = rc == 0;
    let stats = if active {
        StatsResult::Known(
            Stats {
                bsize: stat_buf.os_bsize as u64,
                blocks: stat_buf.os_blocks,
                bused: stat_buf.os_blocks.saturating_sub(stat_buf.os_bavail),
                bfree: stat_buf.os_bfree,
                bavail: stat_buf.os_bavail,
                inodes: if stat_buf.os_files > 0 {
                    Some(
                        Inodes {
                            files: stat_buf.os_files,
                            ffree: stat_buf.os_ffree,
                            favail: stat_buf.os_ffree,
                        },
                    )
                } else {
                    None
                },
            },
        )
    } else {
        StatsResult::Unreachable
    };

    let record_uuid: Option<String> = if uuid.unicode_len() == 0 {
        None
    } else {
        Some(uuid.to_owned())
    };

    let minor_major: u32 = match component_type {
        TargetFamily::Mdt => 1,
        TargetFamily::Ost => 2,
    };

    Mount {
        kind: MountKind::ClusterComponent,
        info: MountInfo {
            id: None,
            parent: None,
            dev: DeviceId { major: minor_major, minor: index },
            root: String::new(),
            mount_point,
            fs: component_name,
            fs_type: "lustre".to_owned(),
            bound: false,
        },
        fs_label: Some(label),
        disk: None,
        stats,
        uuid: record_uuid,
        part_uuid: None,
    }
}

/// The statistics of the targets that answered with success among the
/// entries one discovery loop processes: the probes before the first
/// terminal code, capped at the index ceiling.
pub open spec fn spec_successes_from(probes: Seq<TargetProbe>, i: nat) -> Seq<obd_statfs>
    decreases probes.len() - i,
{
    if i >= probes.len() || i >= LOV_ALL_STRIPES || probes[i as int].rc == CODE_NO_DEVICE {
        Seq::empty()
    } else if probes[i as int].rc == 0 {
        seq![probes[i as int].statfs] + spec_successes_from(probes, i + 1)
    } else {
        spec_successes_from(probes, i + 1)
    }
}

/// Sum of one statistics field over a list of target answers.
pub open spec fn spec_sum_field(s: Seq<obd_statfs>, f: spec_fn(obd_statfs) -> int) -> int
    decreases s.len(),
{
    if s.len() == 0 {
        0
    } else {
        f(s[0]) + spec_sum_field(s.skip(1), f)
    }
}

proof fn lemma_sum_field_push(s: Seq<obd_statfs>, f: spec_fn(obd_statfs) -> int, x: obd_statfs)
    ensures
        spec_sum_field(s.push(x), f) == spec_sum_field(s, f) + f(x),
    decreases s.len(),
{
    assert(spec_sum_field(s.push(x), f) == f(s.push(x)[0]) + spec_sum_field(s.push(x).skip(1), f));
    if s.len() == 0 {
        assert(s.push(x).skip(1) =~= Seq::<obd_statfs>::empty());
        assert(s.push(x)[0] == x);
        assert(spec_sum_field(s.push(x).skip(1), f) == 0);
    } else {
        assert(s.push(x)[0] == s[0]);
        assert(s.push(x).skip(1) =~= s.skip(1).push(x));
        lemma_sum_field_push(s.skip(1), f, x);
        assert(spec_sum_field(s, f) == f(s[0]) + spec_sum_field(s.skip(1), f));
    }
}

pub open spec fn spec_blocks_of(st: obd_statfs) -> int {
    st.os_blocks as int
}

pub open spec fn spec_bfree_of(st: obd_statfs) -> int {
    st.os_bfree as int
}

pub open spec fn spec_bavail_of(st: obd_statfs) -> int {
    st.os_bavail as int
}

pub open spec fn spec_files_of(st: obd_statfs) -> int {
    st.os_files as int
}

pub open spec fn spec_ffree_of(st: obd_statfs) -> int {
    st.os_ffree as int
}

/// A figure too large for its field saturates at the field's maximum.
pub open spec fn clamp_u64(x: int) -> u64 {
    if x > u64::MAX {
        u64::MAX
    } else if x < 0 {
        0
    } else {
        x as u64
    }
}

/// The block size of the aggregate row: the one the first successful object
/// target reported, or the customary default when none succeeded.
pub open spec fn spec_first_bsize(s: Seq<obd_statfs>) -> u64 {
    if s.len() == 0 {
        4096
    } else {
        s[0].os_bsize as u64
    }
}

/// The figures of the aggregate row: object-target space figures summed over
/// all successful object targets and metadata-target file figures summed
/// over all successful metadata targets; explicitly unreachable when no
/// object target succeeded or the summed capacity is zero.
pub open spec fn spec_aggregate_stats(
    ost_probes: Seq<TargetProbe>,
    mdt_probes: Seq<TargetProbe>,
) -> StatsResult {
    let osts = spec_successes_from(ost_probes, 0);
    let mdts = spec_successes_from(mdt_probes, 0);
    let blocks = clamp_u64(spec_sum_field(osts, |st: obd_statfs| spec_blocks_of(st)));
    let bfree = clamp_u64(spec_sum_field(osts, |st: obd_statfs| spec_bfree_of(st)));
    let bavail = clamp_u64(spec_sum_field(osts, |st: obd_statfs| spec_bavail_of(st)));
    let files = clamp_u64(spec_sum_field(mdts, |st: obd_statfs| spec_files_of(st)));
    let ffree = clamp_u64(spec_sum_field(mdts, |st: obd_statfs| spec_ffree_of(st)));
    if blocks > 0 && osts.len() > 0 {
        StatsResult::Known(
            Stats {
                bsize: spec_first_bsize(osts),
                blocks,
                bused: if bavail <= blocks {
                    (blocks - bavail) as u64
                } else {
                    0
                },
                bfree,
                bavail,
                inodes: if files > 0 {
                    Some(Inodes { files, ffree, favail: ffree })
                } else {
                    None
                },
            },
        )
    } else {
        StatsResult::Unreachable
    }
}

/// Everything the synthesized aggregate record of one clustered filesystem
/// holds.
pub open spec fn spec_is_aggregate_record(
    m: Mount,
    mntdir: Seq<char>,
    fsname: Seq<char>,
    ost_probes: Seq<TargetProbe>,
    mdt_probes: Seq<TargetProbe>,
) -> bool {
    &&& m.kind == MountKind::ClusterAggregate
    &&& m.info.id is None
    &&& m.info.parent is None
    &&& m.info.dev == DeviceId { major: 0, minor: 0 }
    &&& m.info.root@ == Seq::<char>::empty()
    &&& m.info.mount_point@ == mntdir
    &&& m.info.fs@ == fsname + "@lustre"@
    &&& m.info.fs_type@ == "lustre"@
    &&& !m.info.bound
    &&& m.stats == spec_aggregate_stats(ost_probes, mdt_probes)
    &&& m.disk is None
    &&& (m.fs_label matches Some(l) && l@ == "Lustre-"@ + fsname)
    &&& m.uuid is None
    &&& m.part_uuid is None
}

/// Walks one family's answers with the loop semantics of discovery and sums
/// one success-only view of them; returns the clamped sums, the first
/// successful block size, and the number of successes.
fn sum_ost_figures(probes: &Vec<TargetProbe>) -> (r: (u64, u64, u64, u64, usize))
    ensures
        ({
            let osts = spec_successes_from(probes@, 0);
            &&& r.0 == clamp_u64(spec_sum_field(osts, |st: obd_statfs| spec_blocks_of(st)))
            &&& r.1 == clamp_u64(spec_sum_field(osts, |st: obd_statfs| spec_bfree_of(st)))
            &&& r.2 == clamp_u64(spec_sum_field(osts, |st: obd_statfs| spec_bavail_of(st)))
            &&& r.3 == spec_first_bsize(osts)
            &&& r.4 == osts.len()
        }),
{
    let ghost fblocks = |st: obd_statfs| spec_blocks_of(st);
    let ghost fbfree = |st: obd_statfs| spec_bfree_of(st);
    let ghost fbavail = |st: obd_statfs| spec_bavail_of(st);
    let mut total_blocks: u64 = 0;
    let mut total_bfree: u64 = 0;
    let mut total_bavail: u64 = 0;
    let mut bsize: u64 = 4096;
    let mut count: usize = 0;
    let mut i: usize = 0;
    let mut stopped = false;
    let ghost mut done: Seq<obd_statfs> = Seq::empty();
    let n = probes.len();
    while !stopped && i < n && i < 65535
        invariant
            n == probes@.len(),
            i <= n,
            i <= 65535,
            count <= i,
            spec_successes_from(probes@, 0) == done + spec_successes_from(probes@, i as nat),
            stopped ==> spec_successes_from(probes@, i as nat) == Seq::<obd_statfs>::empty(),
            spec_sum_field(done, fblocks) >= 0,
            spec_sum_field(done, fbfree) >= 0,
            spec_sum_field(done, fbavail) >= 0,
            total_blocks == clamp_u64(spec_sum_field(done, fblocks)),
            total_bfree == clamp_u64(spec_sum_field(done, fbfree)),
            total_bavail == clamp_u64(spec_sum_field(done, fbavail)),
            bsize == spec_first_bsize(done),
            count == done.len(),
            fblocks == |st: obd_statfs| spec_blocks_of(st),
            fbfree == |st: obd_statfs| spec_bfree_of(st),
            fbavail == |st: obd_statfs| spec_bavail_of(st),
        decreases n - i, (if stopped { 0int } else { 1int }),
    {
        let rc = probes[i].rc;
        match classify_statfs_code(rc) {
            ProbeOutcome::Terminate => {
                proof {
                    assert(spec_successes_from(probes@, i as nat) =~= Seq::<obd_statfs>::empty());
                }
                stopped = true;
            },
            ProbeOutcome::Emit { active } => {
                if active {
                    let st = &probes[i].statfs;
                    proof {
                        lemma_sum_field_push(done, fblocks, *st);
                        lemma_sum_field_push(done, fbfree, *st);
                        lemma_sum_field_push(done, fbavail, *st);
                        assert(done + spec_successes_from(probes@, i as nat) =~= done.push(*st)
                            + spec_successes_from(probes@, (i + 1) as nat));
                    }
                    if count == 0 {
                        bsize = st.os_bsize as u64;
                    }
                    total_blocks = total_blocks.saturating_add(st.os_blocks);
                    total_bfree = total_bfree.saturating_add(st.os_bfree);
                    total_bavail = total_bavail.saturating_add(st.os_bavail);
                    count = count + 1;
                    proof {
                        done = done.push(*st);
                    }
                }
                i = i + 1;
            },
            ProbeOutcome::Skip => {
                i = i + 1;
            },
        }
    }
    proof {
        assert(spec_successes_from(probes@, i as nat) =~= Seq::<obd_statfs>::empty());
        assert(spec_successes_from(probes@, 0) =~= done);
    }
    (total_blocks, total_bfree, total_bavail, bsize, count)
}

/// Walks one family's answers with the loop semantics of discovery and sums
/// the file figures of the successful ones.
fn sum_mdt_figures(probes: &Vec<TargetProbe>) -> (r: (u64, u64))
    ensures
        ({
            let mdts = spec_successes_from(probes@, 0);
            &&& r.0 == clamp_u64(spec_sum_field(mdts, |st: obd_statfs| spec_files_of(st)))
            &&& r.1 == clamp_u64(spec_sum_field(mdts, |st: obd_statfs| spec_ffree_of(st)))
        }),
{
    let ghost ffiles = |st: obd_statfs| spec_files_of(st);
    let ghost fffree = |st: obd_statfs| spec_ffree_of(st);
    let mut total_files: u64 = 0;
    let mut total_ffree: u64 = 0;
    let mut i: usize = 0;
    let mut stopped = false;
    let ghost mut done: Seq<obd_statfs> = Seq::empty();
    let n = probes.len();
    while !stopped && i < n && i < 65535
        invariant
            n == probes@.len(),
            i <= n,
            i <= 65535,
            spec_successes_from(probes@, 0) == done + spec_successes_from(probes@, i as nat),
            stopped ==> spec_successes_from(probes@, i as nat) == Seq::<obd_statfs>::empty(),
            spec_sum_field(done, ffiles) >= 0,
            spec_sum_field(done, fffree) >= 0,
            total_files == clamp_u64(spec_sum_field(done, ffiles)),
            total_ffree == clamp_u64(spec_sum_field(done, fffree)),
            ffiles == |st: obd_statfs| spec_files_of(st),
            fffree == |st: obd_statfs| spec_ffree_of(st),
        decreases n - i, (if stopped { 0int } else { 1int }),
    {
        let rc = probes[i].rc;
        match classify_statfs_code(rc) {
            ProbeOutcome::Terminate => {
                proof {
                    assert(spec_successes_from(probes@, i as nat) =~= Seq::<obd_statfs>::empty());
                }
                stopped = true;
            },
            ProbeOutcome::Emit { active } => {
                if active {
                    let st = &probes[i].statfs;
                    proof {
                        lemma_sum_field_push(done, ffiles, *st);
                        lemma_sum_field_push(done, fffree, *st);
                        assert(done + spec_successes_from(probes@, i as nat) =~= done.push(*st)
                            + spec_successes_from(probes@, (i + 1) as nat));
                    }
                    total_files = total_files.saturating_add(st.os_files);
                    total_ffree = total_ffree.saturating_add(st.os_ffree);
                    proof {
                        done = done.push(*st);
                    }
                }
                i = i + 1;
            },
            ProbeOutcome::Skip => {
                i = i + 1;
            },
        }
    }
    proof {
        assert(spec_successes_from(probes@, i as nat) =~= Seq::<obd_statfs>::empty());
        assert(spec_successes_from(probes@, 0) =~= done);
    }
    (total_files, total_ffree)
}

/// Synthesizes the aggregate record of one clustered filesystem instance out
/// of the answers both target families gave.
pub fn create_lustre_client_mount(
    mntdir: &str,
    fsname: &str,
    ost_probes: &Vec<TargetProbe>,
    mdt_probes: &Vec<TargetProbe>,
) -> (r: Mount)
    ensures
        spec_is_aggregate_record(r, mntdir@, fsname@, ost_probes@, mdt_probes@),
{
    let (total_blocks, total_bfree, total_bavail, bsize, ost_count) = sum_ost_figures(ost_probes);
    let (total_files, total_ffree) = sum_mdt_figures(mdt_probes);

    let mut fs = String::new();
    push_str(&mut fs, fsname);
    push_str(&mut fs, "@lustre");

    let mut label = String::new();
    push_str(&mut label, "Lustre-");
    push_str(&mut label, fsname);

    let stats = if total_blocks > 0 && ost_count > 0 {
        StatsResult::Known(
            Stats {
                bsize,
                blocks: total_blocks,
                bused: total_blocks.saturating_sub(total_bavail),
                bfree: total_bfree,
                bavail: total_bavail,
                inodes: if total_files > 0 {
                    Some(Inodes { files: total_files, ffree: total_ffree, favail: total_ffree })
                } else {
                    None
                },
            },
        )
    } else {
        StatsResult::Unreachable
    };

    Mount {
        kind: MountKind::ClusterAggregate,
        info: MountInfo {
            id: None,
            parent: None,
            dev: DeviceId { major: 0, minor: 0 },
            root: String::new(),
            mount_point: mntdir.to_owned(),
            fs,
            fs_type: "lustre".to_owned(),
            bound: false,
        },
        fs_label: Some(label),
        disk: None,
        stats,
        uuid: None,
        part_uuid: None,
    }
}

/// The indices at which one family's discovery loop emits a target record:
/// those before the first terminal answer (and below the ceiling) whose code
/// means success or an inactive target.
pub open spec fn spec_emitted_from(probes: Seq<TargetProbe>, i: nat) -> Seq<int>
    decreases probes.len() - i,
{
    if i >= probes.len() || i >= LOV_ALL_STRIPES || probes[i as int].rc == CODE_NO_DEVICE {
        Seq::empty()
    } else if spec_classify(probes[i as int].rc as int) is Emit {
        seq![i as int] + spec_emitted_from(probes, i + 1)
    } else {
        spec_emitted_from(probes, i + 1)
    }
}

/// Discovery stays within the index ceiling and emits the indices of one
/// family in strictly increasing order, so no two of its records share an
/// index.
pub proof fn law_discovery_bounded_and_unique(probes: Seq<TargetProbe>)
    ensures
        forall|k: int|
            0 <= k < spec_emitted_from(probes, 0).len() ==> 0 <= #[trigger] spec_emitted_from(
                probes,
                0,
            )[k] < LOV_ALL_STRIPES,
        forall|k1: int, k2: int|
            0 <= k1 < k2 < spec_emitted_from(probes, 0).len() ==> #[trigger] spec_emitted_from(
                probes,
                0,
            )[k1] < #[trigger] spec_emitted_from(probes, 0)[k2],
{
    lemma_emitted_from_bounds(probes, 0);
}

/// Every index one family's loop emits at or after `i` lies in `[i, ceiling)`
/// and the emitted list is strictly increasing.
proof fn lemma_emitted_from_bounds(probes: Seq<TargetProbe>, i: nat)
    ensures
        forall|k: int|
            0 <= k < spec_emitted_from(probes, i).len() ==> i <= #[trigger] spec_emitted_from(
                probes,
                i,
            )[k] < LOV_ALL_STRIPES,
        forall|k1: int, k2: int|
            0 <= k1 < k2 < spec_emitted_from(probes, i).len() ==> #[trigger] spec_emitted_from(
                probes,
                i,
            )[k1] < #[trigger] spec_emitted_from(probes, i)[k2],
    decreases probes.len() - i,
{
    if i >= probes.len() || i >= LOV_ALL_STRIPES || probes[i as int].rc == CODE_NO_DEVICE {
    } else {
        lemma_emitted_from_bounds(probes, i + 1);
        let e = spec_emitted_from(probes, i);
        let rest = spec_emitted_from(probes, i + 1);
        if spec_classify(probes[i as int].rc as int) is Emit {
            assert(e == seq![i as int] + rest);
            assert(e[0] == i as int);
            assert forall|k: int| 0 <= k < e.len() implies i <= #[trigger] e[k] < LOV_ALL_STRIPES by {
                if k > 0 {
                    assert(e[k] == rest[k - 1]);
                }
            }
            assert forall|k1: int, k2: int| 0 <= k1 < k2 < e.len() implies #[trigger] e[k1]
                < #[trigger] e[k2] by {
                assert(e[k2] == rest[k2 - 1]);
                if k1 > 0 {
                    assert(e[k1] == rest[k1 - 1]);
                }
            }
        } else {
            assert(e == rest);
            assert forall|k: int| 0 <= k < e.len() implies i <= #[trigger] e[k] < LOV_ALL_STRIPES by {
                assert(e[k] == rest[k]);
            }
            assert forall|k1: int, k2: int| 0 <= k1 < k2 < e.len() implies #[trigger] e[k1]
                < #[trigger] e[k2] by {
                assert(e[k1] == rest[k1]);
                assert(e[k2] == rest[k2]);
            }
        }
    }
}

/// All the records of one filesystem instance: one per answering metadata
/// target, one per answering object target, and the aggregate record last.
pub fn collect_lustre_mounts(
    mntdir: &str,
    fsname: &str,
    mdt_probes: &Vec<TargetProbe>,
    ost_probes: &Vec<TargetProbe>,
) -> (r: Vec<Mount>)
    ensures
        ({
            let mdt_e = spec_emitted_from(mdt_probes@, 0);
            let ost_e = spec_emitted_from(ost_probes@, 0);
            &&& r@.len() == mdt_e.len() + ost_e.len() + 1
            &&& forall|k: int|
                0 <= k < mdt_e.len() ==> spec_is_component_record(
                    #[trigger] r@[k],
                    mntdir@,
                    fsname@,
                    mdt_probes@[mdt_e[k]].statfs,
                    mdt_probes@[mdt_e[k]].uuid@,
                    TargetFamily::Mdt,
                    mdt_e[k] as u32,
                    mdt_probes@[mdt_e[k]].rc == 0,
                )
            &&& forall|k: int|
                0 <= k < ost_e.len() ==> spec_is_component_record(
                    #[trigger] r@[mdt_e.len() + k],
                    mntdir@,
                    fsname@,
                    ost_probes@[ost_e[k]].statfs,
                    ost_probes@[ost_e[k]].uuid@,
                    TargetFamily::Ost,
                    ost_e[k] as u32,
                    ost_probes@[ost_e[k]].rc == 0,
                )
            &&& spec_is_aggregate_record(
                r@[r@.len() - 1],
                mntdir@,
                fsname@,
                ost_probes@,
                mdt_probes@,
            )
        }),
{
    let mut mounts: Vec<Mount> = Vec::new();
    collect_family_into(&mut mounts, mntdir, fsname, mdt_probes, TargetFamily::Mdt);
    let ghost snap1 = mounts@;
    collect_family_into(&mut mounts, mntdir, fsname, ost_probes, TargetFamily::Ost);
    let ghost snap2 = mounts@;
    let client = create_lustre_client_mount(mntdir, fsname, ost_probes, mdt_probes);
    let ghost gclient = client;
    mounts.push(client);
    proof {
        let mdt_e = spec_emitted_from(mdt_probes@, 0);
        let ost_e = spec_emitted_from(ost_probes@, 0);
        assert(snap1.len() == mdt_e.len());
        assert(snap2.len() == mdt_e.len() + ost_e.len());
        assert(mounts@ == snap2.push(gclient));
        assert forall|k: int|
            0 <= k < mdt_e.len() implies spec_is_component_record(
            #[trigger] mounts@[k],
            mntdir@,
            fsname@,
            mdt_probes@[mdt_e[k]].statfs,
            mdt_probes@[mdt_e[k]].uuid@,
            TargetFamily::Mdt,
            mdt_e[k] as u32,
            mdt_probes@[mdt_e[k]].rc == 0,
        ) by {
            assert(mounts@[k] == snap2[k]);
            assert(snap2[k] == snap1[k]);
            assert(spec_is_component_record(
                snap1[0 + k],
                mntdir@,
                fsname@,
                mdt_probes@[mdt_e[k]].statfs,
                mdt_probes@[mdt_e[k]].uuid@,
                TargetFamily::Mdt,
                mdt_e[k] as u32,
                mdt_probes@[mdt_e[k]].rc == 0,
            ));
        }
        assert forall|k: int|
            0 <= k < ost_e.len() implies spec_is_component_record(
            #[trigger] mounts@[mdt_e.len() + k],
            mntdir@,
            fsname@,
            ost_probes@[ost_e[k]].statfs,
            ost_probes@[ost_e[k]].uuid@,
            TargetFamily::Ost,
            ost_e[k] as u32,
            ost_probes@[ost_e[k]].rc == 0,
        ) by {
            assert(mounts@[mdt_e.len() + k] == snap2[snap1.len() + k]);
            assert(spec_is_component_record(
                snap2[snap1.len() + k],
                mntdir@,
                fsname@,
                ost_probes@[ost_e[k]].statfs,
                ost_probes@[ost_e[k]].uuid@,
                TargetFamily::Ost,
                ost_e[k] as u32,
                ost_probes@[ost_e[k]].rc == 0,
            ));
        }
        assert(mounts@[mounts@.len() - 1] == gclient);
    }
    mounts
}

/// Appends the records one family's discovery loop emits, walking the
/// family's answers index by index until a terminal code or the ceiling.
fn collect_family_into(
    mounts: &mut Vec<Mount>,
    mntdir: &str,
    fsname: &str,
    probes: &Vec<TargetProbe>,
    family: TargetFamily,
)
    ensures
        ({
            let e = spec_emitted_from(probes@, 0);
            &&& final(mounts)@.len() == old(mounts)@.len() + e.len()
            &&& forall|k: int|
                0 <= k < old(mounts)@.len() ==> #[trigger] final(mounts)@[k] == old(mounts)@[k]
            &&& forall|k: int|
                0 <= k < e.len() ==> spec_is_component_record(
                    #[trigger] final(mounts)@[old(mounts)@.len() + k],
                    mntdir@,
                    fsname@,
                    probes@[e[k]].statfs,
                    probes@[e[k]].uuid@,
                    family,
                    e[k] as u32,
                    probes@[e[k]].rc == 0,
                )
        }),
{
    let base = mounts.len();
    let mut i: usize = 0;
    let mut stopped = false;
    let ghost mut done: Seq<int> = Seq::empty();
    let n = probes.len();
    while !stopped && i < n && i < 65535
        invariant
            n == probes@.len(),
            i <= n,
            i <= 65535,
            base == old(mounts)@.len(),
            spec_emitted_from(probes@, 0) == done + spec_emitted_from(probes@, i as nat),
            stopped ==> spec_emitted_from(probes@, i as nat) == Seq::<int>::empty(),
            mounts@.len() == base + done.len(),
            forall|k: int| 0 <= k < base ==> #[trigger] mounts@[k] == old(mounts)@[k],
            forall|k: int| 0 <= k < done.len() ==> 0 <= #[trigger] done[k] < i,
            forall|k: int|
                0 <= k < done.len() ==> spec_is_component_record(
                    #[trigger] mounts@[base + k],
                    mntdir@,
                    fsname@,
                    probes@[done[k]].statfs,
                    probes@[done[k]].uuid@,
                    family,
                    done[k] as u32,
                    probes@[done[k]].rc == 0,
                ),
        decreases n - i, (if stopped { 0int } else { 1int }),
    {
        let rc = probes[i].rc;
        match classify_statfs_code(rc) {
            ProbeOutcome::Terminate => {
                proof {
                    assert(spec_emitted_from(probes@, i as nat) =~= Seq::<int>::empty());
                }
                stopped = true;
            },
            ProbeOutcome::Emit { active: _ } => {
                let record = create_lustre_component_mount(
                    mntdir,
                    fsname,
                    &probes[i].statfs,
                    probes[i].uuid.as_str(),
                    family,
                    i as u32,
                    rc,
                );
                mounts.push(record);
                proof {
                    assert(done + spec_emitted_from(probes@, i as nat) =~= done.push(i as int)
                        + spec_emitted_from(probes@, (i + 1) as nat));
                    done = done.push(i as int);
                }
                i = i + 1;
            },
            ProbeOutcome::Skip => {
                i = i + 1;
            },
        }
    }
    proof {
        assert(spec_emitted_from(probes@, i as nat) =~= Seq::<int>::empty());
        assert(spec_emitted_from(probes@, 0) =~= done);
    }
}

/// The component family and index a component name spells: the `TYPE` and
/// number of a `<fsname>-<TYPE><number>_<suffix>` name, with a three-letter
/// type tag and at least four digits.
pub open spec fn spec_parse_lustre_component(s: Seq<char>) -> Option<(Seq<char>, u32)> {
    match spec_find_char_from(s, '-', 0) {
        None => None,
        Some(d) => {
            let after = s.skip(d + 1);
            match spec_find_char_from(after, '_', 0) {
                None => None,
                Some(u) => {
                    let part = after.take(u);
                    if part.len() >= 7 {
                        match spec_parse_u32(part.skip(3)) {
                            Some(n) => Some((part.take(3), n)),
                            None => None,
                        }
                    } else {
                        None
                    }
                },
            }
        },
    }
}

/// Parses a component name such as `lustre-MDT0000_UUID` into its family tag
/// and numeric index.
pub fn parse_lustre_component(name: &str) -> (r: Option<(String, u32)>)
    ensures
        match r {
            Some(p) => spec_parse_lustre_component(name@) == Some((p.0@, p.1)),
            None => spec_parse_lustre_component(name@) is None,
        },
{
    let n = name.unicode_len();
    let d = match str_find_char_from(name, '-', 0) {
        Some(d) => d,
        None => {
            return None;
        },
    };
    proof {
        lemma_find_char_from_correct(name@, '-', 0);
    }
    let after = name.substring_char(d + 1, n);
    proof {
        assert(after@ =~= name@.skip(d + 1));
    }
    let u = match str_find_char_from(after, '_', 0) {
        Some(u) => u,
        None => {
            return None;
        },
    };
    proof {
        lemma_find_char_from_correct(after@, '_', 0);
    }
    let part = after.substring_char(0, u);
    proof {
        assert(part@ =~= after@.take(u as int));
    }
    let plen = part.unicode_len();
    if plen >= 7 {
        let num_str = part.substring_char(3, plen);
        proof {
            assert(num_str@ =~= part@.skip(3));
        }
        match parse_u32(num_str) {
            Some(num) => {
                let comp_type = part.substring_char(0, 3);
                proof {
                    assert(comp_type@ =~= part@.take(3));
                }
                Some((comp_type.to_owned(), num))
            },
            None => None,
        }
    } else {
        None
    }
}

/// The numeric index spelled between a five-character bracket marker and the
/// closing bracket after it.
pub open spec fn spec_bracket_index(s: Seq<char>, marker: Seq<char>) -> Option<u32> {
    match spec_find_from(s, marker, 0) {
        None => None,
        Some(st) => match spec_find_char_from(s, ']', (st + 5) as nat) {
            None => None,
            Some(end) => spec_parse_u32(s.subrange(st + 5, end)),
        },
    }
}

fn bracket_index(s: &str, marker: &str) -> (r: Option<u32>)
    requires
        marker@.len() == 5,
    ensures
        r == spec_bracket_index(s@, marker@),
{
    let n = s.unicode_len();
    let st = match str_find(s, marker) {
        Some(st) => st,
        None => {
            return None;
        },
    };
    proof {
        crate::strings::lemma_find_from_correct(s@, marker@, 0);
        assert(st + 5 <= n);
    }
    let end = match str_find_char_from(s, ']', st + 5) {
        Some(end) => end,
        None => {
            return None;
        },
    };
    proof {
        lemma_find_char_from_correct(s@, ']', (st + 5) as nat);
    }
    let digits = s.substring_char(st + 5, end);
    proof {
        assert(digits@ =~= s@.subrange(st + 5, end as int));
    }
    parse_u32(digits)
}

/// The component identity a mount path encodes: the family tag and index of
/// its bracketed annotation, or the client tag for a path without one.
pub open spec fn spec_component_info(s: Seq<char>) -> (Option<Seq<char>>, Option<u32>) {
    if seq_contains(s, "[MDT:"@) {
        (Some("MDT"@), spec_bracket_index(s, "[MDT:"@))
    } else if seq_contains(s, "[OST:"@) {
        (Some("OST"@), spec_bracket_index(s, "[OST:"@))
    } else if !crate::strings::seq_contains_char(s, '[') {
        (Some("CLIENT"@), None)
    } else {
        (None, None)
    }
}

/// Extracts the component family and index of a mount path's bracketed
/// annotation.
pub fn extract_component_info(mount_point: &str) -> (r: (Option<String>, Option<u32>))
    ensures
        match r.0 {
            Some(t) => spec_component_info(mount_point@).0 == Some(t@),
            None => spec_component_info(mount_point@).0 is None,
        },
        r.1 == spec_component_info(mount_point@).1,
{
    proof {
        reveal_strlit("[MDT:");
        reveal_strlit("[OST:");
    }
    if str_contains(mount_point, "[MDT:") {
        let idx = bracket_index(mount_point, "[MDT:");
        (Some("MDT".to_owned()), idx)
    } else if str_contains(mount_point, "[OST:") {
        let idx = bracket_index(mount_point, "[OST:");
        (Some("OST".to_owned()), idx)
    } else if !crate::strings::str_contains_char(mount_point, '[') {
        (Some("CLIENT".to_owned()), None)
    } else {
        (None, None)
    }
}

/// Whether a mount path looks like a server-side component mount of the
/// clustered filesystem: a best-effort substring heuristic, not a parser.
pub open spec fn spec_is_lustre_server_component(s: Seq<char>) -> bool {
    ||| seq_contains(s, "-ost"@)
    ||| seq_contains(s, "-mdt"@)
    ||| seq_contains(s, "-mds"@)
    ||| (seq_contains(s, "ost"@) && (seq_contains(s, "lustre"@) || seq_contains(s, "scratch"@)))
    ||| (seq_contains(s, "mdt"@) && (seq_contains(s, "lustre"@) || seq_contains(s, "scratch"@)))
}

pub fn is_lustre_server_component(mount_point: &str) -> (r: bool)
    ensures
        r == spec_is_lustre_server_component(mount_point@),
{
    str_contains(mount_point, "-ost") || str_contains(mount_point, "-mdt") || str_contains(
        mount_point,
        "-mds",
    ) || (str_contains(mount_point, "ost") && (str_contains(mount_point, "lustre")
        || str_contains(mount_point, "scratch"))) || (str_contains(mount_point, "mdt") && (
    str_contains(mount_point, "lustre") || str_contains(mount_point, "scratch")))
}

/// Whether a record is one of the synthesized per-target component rows,
/// recognized by the bracketed annotation in its path.
pub open spec fn spec_is_lustre_component_mount(m: Mount) -> bool {
    seq_contains(m.info.mount_point@, "[MDT:"@) || seq_contains(m.info.mount_point@, "[OST:"@)
}

pub fn is_lustre_component_mount(mount: &Mount) -> (r: bool)
    ensures
        r == spec_is_lustre_component_mount(*mount),
{
    str_contains(mount.info.mount_point.as_str(), "[MDT:") || str_contains(
        mount.info.mount_point.as_str(),
        "[OST:",
    )
}

/// What the native layout query reported for a path: each figure is present
/// when its getter succeeded.
#[derive(Debug)]
pub struct LayoutProbe {
    pub stripe_count: Option<u64>,
    pub stripe_size: Option<u64>,
    pub pool_name: Option<String>,
    pub mirror_count: Option<u16>,
}

/// The stripe count kept from a layout answer: only values within sane
/// bounds are reported.
pub open spec fn spec_valid_stripe_count(layout: Option<LayoutProbe>) -> Option<u64> {
    match layout {
        Some(p) => match p.stripe_count {
            Some(c) => if 1 <= c <= 1000 {
                Some(c)
            } else {
                None
            },
            None => None,
        },
        None => None,
    }
}

/// The stripe size kept from a layout answer: only sizes between 64 KiB and
/// 1 GiB are reported.
pub open spec fn spec_valid_stripe_size(layout: Option<LayoutProbe>) -> Option<u64> {
    match layout {
        Some(p) => match p.stripe_size {
            Some(c) => if 65536 <= c <= 1073741824 {
                Some(c)
            } else {
                None
            },
            None => None,
        },
        None => None,
    }
}

/// Everything the cluster metadata collected for one mount path holds. A
/// component path (one with a bracketed annotation) carries only its
/// component identity; the client path also carries the validated layout
/// figures the query gave. A figure the query did not give, or gave outside
/// its sane bounds, stays absent rather than being reported; no source
/// supplies a software version here, so that field stays absent too.
pub open spec fn spec_layout_info(
    info: LustreInfo,
    mount_point: Seq<char>,
    layout: Option<LayoutProbe>,
) -> bool {
    let ci = spec_component_info(mount_point);
    &&& (match ci.0 {
        Some(t) => info.component_type matches Some(ct) && ct@ == t,
        None => info.component_type is None,
    })
    &&& info.component_index == ci.1
    &&& if !crate::strings::seq_contains_char(mount_point, '[') {
        &&& info.stripe_count == spec_valid_stripe_count(layout)
        &&& info.stripe_size == spec_valid_stripe_size(layout)
        &&& (match layout {
            Some(p) => match p.pool_name {
                Some(name) => if name@.len() > 0 {
                    info.pool_name matches Some(pn) && pn@ == name@
                } else {
                    info.pool_name is None
                },
                None => info.pool_name is None,
            },
            None => info.pool_name is None,
        })
        &&& info.mirror_count == (match layout {
            Some(p) => match p.mirror_count {
                Some(m) => if m > 0 {
                    Some(m)
                } else {
                    None
                },
                None => None,
            },
            None => None,
        })
        &&& info.lustre_version is None
    } else {
        &&& info.stripe_count is None
        &&& info.stripe_size is None
        &&& info.pool_name is None
        &&& info.mirror_count is None
        &&& info.lustre_version is None
    }
}

/// Builds the cluster metadata of one mount path out of the answer of the
/// native layout query, keeping each figure only when the query gave it
/// within its sane bounds. Only the client path (no bracketed annotation)
/// carries layout figures; component paths carry their identity alone.
pub fn collect_lustre_layout_info(mount_point: &str, layout: Option<LayoutProbe>) -> (r:
    LustreInfo)
    ensures
        spec_layout_info(r, mount_point@, layout),
{
    let mut info = LustreInfo::new();

    let (comp_type, comp_index) = extract_component_info(mount_point);
    info.component_type = comp_type;
    info.component_index = comp_index;

    if !crate::strings::str_contains_char(mount_point, '[') {
        match layout {
            Some(p) => {
                match p.stripe_count {
                    Some(c) => {
                        if 1 <= c && c <= 1000 {
                            info.stripe_count = Some(c);
                        }
                    },
                    None => {},
                }
                match p.stripe_size {
                    Some(c) => {
                        if 65536 <= c && c <= 1073741824 {
                            info.stripe_size = Some(c);
                        }
                    },
                    None => {},
                }
                match p.pool_name {
                    Some(name) => {
                        if name.as_str().unicode_len() > 0 {
                            info.pool_name = Some(name);
                        }
                    },
                    None => {},
                }
                match p.mirror_count {
                    Some(m) => {
                        if m > 0 {
                            info.mirror_count = Some(m);
                        }
                    },
                    None => {},
                }
            },
            None => {},
        }
    }

    info
}

} // verus!
