//! Ordering of the record list: the per-column comparators, the user or
//! default sort over any column, and the topology ordering of a
//! cluster-only view.

use vstd::prelude::*;
use vstd::multiset::Multiset;
use vstd::string::StrSliceExecFns;
use core::cmp::Ordering;
use crate::col::{extract_fsname, spec_extract_fsname, Col};
use crate::lustre::{parse_lustre_component, spec_parse_lustre_component};
use crate::meta::{get_lustre_info, LustreInfo, LustreInfoTable};
use crate::mount::{Inodes, Mount, MountKind, Stats};
use crate::order::Order;
use crate::strings::{lower_seq, spec_lex_cmp, str_lex_cmp, str_to_ascii_lowercase};

verus! {

/// Integer comparison as an ordering value.
pub open spec fn spec_cmp_int(a: int, b: int) -> Ordering {
    if a < b {
        Ordering::Less
    } else if a > b {
        Ordering::Greater
    } else {
        Ordering::Equal
    }
}

/// Comparison of optional figures where a missing figure sorts before a
/// present one.
pub open spec fn spec_cmp_opt_int_none_first(a: Option<int>, b: Option<int>) -> Ordering {
    match (a, b) {
        (Some(x), Some(y)) => spec_cmp_int(x, y),
        (Some(_), None) => Ordering::Greater,
        (None, Some(_)) => Ordering::Less,
        (None, None) => Ordering::Equal,
    }
}

/// Comparison of optional text where a present value sorts before a missing
/// one.
pub open spec fn spec_cmp_opt_lex_some_first(a: Option<Seq<char>>, b: Option<Seq<char>>) -> Ordering {
    match (a, b) {
        (Some(x), Some(y)) => spec_lex_cmp(x, y),
        (Some(_), None) => Ordering::Less,
        (None, Some(_)) => Ordering::Greater,
        (None, None) => Ordering::Equal,
    }
}

/// Comparison of optional text where a missing value sorts before a present
/// one.
pub open spec fn spec_cmp_opt_lex_none_first(a: Option<Seq<char>>, b: Option<Seq<char>>) -> Ordering {
    match (a, b) {
        (Some(x), Some(y)) => spec_lex_cmp(x, y),
        (Some(_), None) => Ordering::Greater,
        (None, Some(_)) => Ordering::Less,
        (None, None) => Ordering::Equal,
    }
}

/// Comparison of two usage shares written as exact fractions, by comparing
/// the cross products.
pub open spec fn spec_cmp_ratio(k1: (int, int), k2: (int, int)) -> Ordering {
    spec_cmp_int(k1.0 * k2.1, k2.0 * k1.1)
}

/// The usage share of space figures, as an exact fraction with a positive
/// denominator: used blocks over total blocks, zero for an empty volume.
pub open spec fn spec_use_share_key(st: Stats) -> (int, int) {
    if st.blocks == 0 {
        (0int, 1int)
    } else {
        (st.blocks - st.bavail, st.blocks as int)
    }
}

/// The usage share of inode figures, as an exact fraction with a positive
/// denominator: used inodes over total inodes, zero when no total is known.
pub open spec fn spec_inode_share_key(i: Inodes) -> (int, int) {
    if i.files == 0 {
        (0int, 1int)
    } else {
        (i.spec_used(), i.files as int)
    }
}

/// Products of one non-negative and one positive factor keep their sign and
/// order.
proof fn lemma_ratio_products(n1: int, d1: int, n2: int, d2: int)
    requires
        0 < d1 <= u64::MAX,
        0 < d2 <= u64::MAX,
        -(u64::MAX as int) <= n1 <= u64::MAX,
        -(u64::MAX as int) <= n2 <= u64::MAX,
    ensures
        n1 >= 0 && n2 >= 0 ==> 0 <= n1 * d2 <= u128::MAX && 0 <= n2 * d1 <= u128::MAX,
        n1 < 0 && n2 >= 0 ==> n1 * d2 < 0 <= n2 * d1,
        n1 >= 0 && n2 < 0 ==> n2 * d1 < 0 <= n1 * d2,
        n1 < 0 && n2 < 0 ==> 0 <= (-n1) * d2 <= u128::MAX && 0 <= (-n2) * d1 <= u128::MAX && n1
            * d2 == -((-n1) * d2) && n2 * d1 == -((-n2) * d1),
{
    assert(n1 >= 0 && n2 >= 0 ==> 0 <= n1 * d2 <= u128::MAX && 0 <= n2 * d1 <= u128::MAX)
        by (nonlinear_arith)
        requires
            0 < d1 <= u64::MAX,
            0 < d2 <= u64::MAX,
            n1 <= u64::MAX,
            n2 <= u64::MAX,
    ;
    assert(n1 < 0 && n2 >= 0 ==> n1 * d2 < 0 <= n2 * d1) by (nonlinear_arith)
        requires
            0 < d1,
            0 < d2,
    ;
    assert(n1 >= 0 && n2 < 0 ==> n2 * d1 < 0 <= n1 * d2) by (nonlinear_arith)
        requires
            0 < d1,
            0 < d2,
    ;
    assert(n1 < 0 && n2 < 0 ==> 0 <= (-n1) * d2 <= u128::MAX && 0 <= (-n2) * d1 <= u128::MAX && n1
        * d2 == -((-n1) * d2) && n2 * d1 == -((-n2) * d1)) by (nonlinear_arith)
        requires
            0 < d1 <= u64::MAX,
            0 < d2 <= u64::MAX,
            -(u64::MAX as int) <= n1,
            -(u64::MAX as int) <= n2,
    ;
}

/// Compares two exact fractions given as sign, absolute numerator and
/// positive denominator.
fn cmp_ratio_parts(neg1: bool, abs1: u64, d1: u64, neg2: bool, abs2: u64, d2: u64) -> (r: Ordering)
    requires
        d1 > 0,
        d2 > 0,
        neg1 ==> abs1 > 0,
        neg2 ==> abs2 > 0,
    ensures
        r == spec_cmp_ratio(
            ((if neg1 {
                -(abs1 as int)
            } else {
                abs1 as int
            }), d1 as int),
            ((if neg2 {
                -(abs2 as int)
            } else {
                abs2 as int
            }), d2 as int),
        ),
{
    let ghost n1: int = if neg1 {
        -(abs1 as int)
    } else {
        abs1 as int
    };
    let ghost n2: int = if neg2 {
        -(abs2 as int)
    } else {
        abs2 as int
    };
    proof {
        lemma_ratio_products(n1, d1 as int, n2, d2 as int);
        assert((abs1 as int) * (d2 as int) <= (u64::MAX as int) * (u64::MAX as int) && (
        abs2 as int) * (d1 as int) <= (u64::MAX as int) * (u64::MAX as int)) by (nonlinear_arith)
            requires
                abs1 <= u64::MAX,
                abs2 <= u64::MAX,
                d1 <= u64::MAX,
                d2 <= u64::MAX,
        ;
    }
    let p1: u128 = (abs1 as u128) * (d2 as u128);
    let p2: u128 = (abs2 as u128) * (d1 as u128);
    if neg1 && !neg2 {
        Ordering::Less
    } else if !neg1 && neg2 {
        Ordering::Greater
    } else if !neg1 && !neg2 {
        if p1 < p2 {
            Ordering::Less
        } else if p1 > p2 {
            Ordering::Greater
        } else {
            Ordering::Equal
        }
    } else {
        if p1 > p2 {
            Ordering::Less
        } else if p1 < p2 {
            Ordering::Greater
        } else {
            Ordering::Equal
        }
    }
}

/// Compares the space usage shares of two sets of figures.
fn cmp_use_share(a: &Stats, b: &Stats) -> (r: Ordering)
    ensures
        r == spec_cmp_ratio(spec_use_share_key(*a), spec_use_share_key(*b)),
{
    let (neg1, abs1, d1) = if a.blocks == 0 {
        (false, 0u64, 1u64)
    } else if a.bavail <= a.blocks {
        (false, a.blocks - a.bavail, a.blocks)
    } else {
        (true, a.bavail - a.blocks, a.blocks)
    };
    let (neg2, abs2, d2) = if b.blocks == 0 {
        (false, 0u64, 1u64)
    } else if b.bavail <= b.blocks {
        (false, b.blocks - b.bavail, b.blocks)
    } else {
        (true, b.bavail - b.blocks, b.blocks)
    };
    cmp_ratio_parts(neg1, abs1, d1, neg2, abs2, d2)
}

/// Compares the inode usage shares of two sets of figures.
fn cmp_inode_share(a: &Inodes, b: &Inodes) -> (r: Ordering)
    ensures
        r == spec_cmp_ratio(spec_inode_share_key(*a), spec_inode_share_key(*b)),
{
    let (abs1, d1) = if a.files == 0 {
        (0u64, 1u64)
    } else {
        (a.used(), a.files)
    };
    let (abs2, d2) = if b.files == 0 {
        (0u64, 1u64)
    } else {
        (b.used(), b.files)
    };
    cmp_ratio_parts(false, abs1, d1, false, abs2, d2)
}

fn cmp_u128(a: u128, b: u128) -> (r: Ordering)
    ensures
        r == spec_cmp_int(a as int, b as int),
{
    if a < b {
        Ordering::Less
    } else if a > b {
        Ordering::Greater
    } else {
        Ordering::Equal
    }
}

fn cmp_u64(a: u64, b: u64) -> (r: Ordering)
    ensures
        r == spec_cmp_int(a as int, b as int),
{
    if a < b {
        Ordering::Less
    } else if a > b {
        Ordering::Greater
    } else {
        Ordering::Equal
    }
}

fn cmp_u32(a: u32, b: u32) -> (r: Ordering)
    ensures
        r == spec_cmp_int(a as int, b as int),
{
    if a < b {
        Ordering::Less
    } else if a > b {
        Ordering::Greater
    } else {
        Ordering::Equal
    }
}

fn cmp_bool(a: bool, b: bool) -> (r: Ordering)
    ensures
        r == spec_cmp_int(
            (if a {
                1int
            } else {
                0int
            }),
            (if b {
                1int
            } else {
                0int
            }),
        ),
{
    if a == b {
        Ordering::Equal
    } else if !a {
        Ordering::Less
    } else {
        Ordering::Greater
    }
}


/// A present mount-table id as a number.
pub open spec fn opt_u32_int(o: Option<u32>) -> Option<int> {
    match o {
        Some(x) => Some(x as int),
        None => None,
    }
}

/// The characters of a present text field.
pub open spec fn opt_view(o: Option<String>) -> Option<Seq<char>> {
    match o {
        Some(s) => Some(s@),
        None => None,
    }
}

/// The lower-cased characters of a present storage classification.
pub open spec fn opt_lower(o: Option<String>) -> Option<Seq<char>> {
    match o {
        Some(s) => Some(lower_seq(s@)),
        None => None,
    }
}

pub open spec fn bool_int(b: bool) -> int {
    if b {
        1
    } else {
        0
    }
}

pub open spec fn opt_stats_used(m: Mount) -> Option<int> {
    match m.spec_stats() {
        Some(s) => Some(s.spec_used()),
        None => None,
    }
}

pub open spec fn opt_stats_avail(m: Mount) -> Option<int> {
    match m.spec_stats() {
        Some(s) => Some(s.spec_available()),
        None => None,
    }
}

pub open spec fn opt_stats_size(m: Mount) -> Option<int> {
    match m.spec_stats() {
        Some(s) => Some(s.spec_size()),
        None => None,
    }
}

pub open spec fn opt_inodes_used(m: Mount) -> Option<int> {
    match m.spec_inodes() {
        Some(i) => Some(i.spec_used()),
        None => None,
    }
}

pub open spec fn opt_inodes_favail(m: Mount) -> Option<int> {
    match m.spec_inodes() {
        Some(i) => Some(i.favail as int),
        None => None,
    }
}

pub open spec fn opt_inodes_files(m: Mount) -> Option<int> {
    match m.spec_inodes() {
        Some(i) => Some(i.files as int),
        None => None,
    }
}

/// The cluster metadata recorded for a record's mount path, if any.
pub open spec fn spec_meta_of(t: Map<Seq<char>, LustreInfo>, m: Mount) -> Option<LustreInfo> {
    if t.contains_key(m.info.mount_point@) {
        Some(t[m.info.mount_point@])
    } else {
        None
    }
}

pub open spec fn meta_stripe_count(t: Map<Seq<char>, LustreInfo>, m: Mount) -> int {
    match spec_meta_of(t, m) {
        Some(i) => match i.stripe_count {
            Some(c) => c as int,
            None => 0,
        },
        None => 0,
    }
}

pub open spec fn meta_stripe_size(t: Map<Seq<char>, LustreInfo>, m: Mount) -> int {
    match spec_meta_of(t, m) {
        Some(i) => match i.stripe_size {
            Some(c) => c as int,
            None => 0,
        },
        None => 0,
    }
}

pub open spec fn meta_version(t: Map<Seq<char>, LustreInfo>, m: Mount) -> Seq<char> {
    match spec_meta_of(t, m) {
        Some(i) => match i.lustre_version {
            Some(v) => v@,
            None => Seq::empty(),
        },
        None => Seq::empty(),
    }
}

pub open spec fn meta_pool(t: Map<Seq<char>, LustreInfo>, m: Mount) -> Seq<char> {
    match spec_meta_of(t, m) {
        Some(i) => match i.pool_name {
            Some(v) => v@,
            None => Seq::empty(),
        },
        None => Seq::empty(),
    }
}

pub open spec fn meta_component_type(t: Map<Seq<char>, LustreInfo>, m: Mount) -> Seq<char> {
    match spec_meta_of(t, m) {
        Some(i) => match i.component_type {
            Some(v) => v@,
            None => Seq::empty(),
        },
        None => Seq::empty(),
    }
}

pub open spec fn meta_component_index(t: Map<Seq<char>, LustreInfo>, m: Mount) -> int {
    match spec_meta_of(t, m) {
        Some(i) => match i.component_index {
            Some(v) => v as int,
            None => u32::MAX as int,
        },
        None => u32::MAX as int,
    }
}

pub open spec fn meta_mirror_count(t: Map<Seq<char>, LustreInfo>, m: Mount) -> int {
    match spec_meta_of(t, m) {
        Some(i) => match i.mirror_count {
            Some(v) => v as int,
            None => 0,
        },
        None => 0,
    }
}

/// What a column's comparator answers for two records: a strict weak
/// ordering over the column's key, with the column's own convention for
/// missing data.
pub open spec fn spec_col_cmp(
    c: Col,
    t: Map<Seq<char>, LustreInfo>,
    a: Mount,
    b: Mount,
) -> Ordering {
    match c {
        Col::Id => spec_cmp_opt_int_none_first(opt_u32_int(a.info.id), opt_u32_int(b.info.id)),
        Col::Dev => { let c = spec_cmp_int(a.info.dev.major as int, b.info.dev.major as int); if c is Equal { spec_cmp_int(a.info.dev.minor as int, b.info.dev.minor as int) } else { c } },
        Col::Filesystem => spec_lex_cmp(a.info.fs@, b.info.fs@),
        Col::Label => spec_cmp_opt_lex_some_first(opt_view(a.fs_label), opt_view(b.fs_label)),
        Col::Type => spec_lex_cmp(a.info.fs_type@, b.info.fs_type@),
        Col::Remote => spec_cmp_int(bool_int(a.info.spec_is_remote()), bool_int(b.info.spec_is_remote())),
        Col::Disk => spec_cmp_opt_lex_none_first(opt_lower(a.disk), opt_lower(b.disk)),
        Col::Used => spec_cmp_opt_int_none_first(opt_stats_used(a), opt_stats_used(b)),
        Col::Use => match (a.spec_stats(), b.spec_stats()) {
            (Some(x), Some(y)) => spec_cmp_ratio(spec_use_share_key(x), spec_use_share_key(y)),
            (Some(_), None) => Ordering::Greater,
            (None, Some(_)) => Ordering::Less,
            (None, None) => Ordering::Equal,
        },
        Col::UsePercent => match (a.spec_stats(), b.spec_stats()) {
            (Some(x), Some(y)) => spec_cmp_ratio(spec_use_share_key(x), spec_use_share_key(y)),
            (Some(_), None) => Ordering::Greater,
            (None, Some(_)) => Ordering::Less,
            (None, None) => Ordering::Equal,
        },
        Col::Free => spec_cmp_opt_int_none_first(opt_stats_avail(a), opt_stats_avail(b)),
        Col::FreePercent => match (a.spec_stats(), b.spec_stats()) {
            (Some(x), Some(y)) => spec_cmp_ratio(spec_use_share_key(y), spec_use_share_key(x)),
            (Some(_), None) => Ordering::Greater,
            (None, Some(_)) => Ordering::Less,
            (None, None) => Ordering::Equal,
        },
        Col::Size => spec_cmp_opt_int_none_first(opt_stats_size(a), opt_stats_size(b)),
        Col::InodesUsed => spec_cmp_opt_int_none_first(opt_inodes_used(a), opt_inodes_used(b)),
        Col::InodesUse => match (a.spec_inodes(), b.spec_inodes()) {
            (Some(x), Some(y)) => spec_cmp_ratio(spec_inode_share_key(x), spec_inode_share_key(y)),
            (Some(_), None) => Ordering::Greater,
            (None, Some(_)) => Ordering::Less,
            (None, None) => Ordering::Equal,
        },
        Col::InodesUsePercent => match (a.spec_inodes(), b.spec_inodes()) {
            (Some(x), Some(y)) => spec_cmp_ratio(spec_inode_share_key(x), spec_inode_share_key(y)),
            (Some(_), None) => Ordering::Greater,
            (None, Some(_)) => Ordering::Less,
            (None, None) => Ordering::Equal,
        },
        Col::InodesFree => spec_cmp_opt_int_none_first(opt_inodes_favail(a), opt_inodes_favail(b)),
        Col::InodesCount => spec_cmp_opt_int_none_first(opt_inodes_files(a), opt_inodes_files(b)),
        Col::MountPoint => spec_lex_cmp(a.info.mount_point@, b.info.mount_point@),
        Col::FsName => spec_lex_cmp(spec_extract_fsname(a), spec_extract_fsname(b)),
        Col::Uuid => spec_cmp_opt_lex_some_first(opt_view(a.uuid), opt_view(b.uuid)),
        Col::PartUuid => spec_cmp_opt_lex_some_first(opt_view(a.part_uuid), opt_view(b.part_uuid)),
        Col::StripeCount => spec_cmp_int(meta_stripe_count(t, a), meta_stripe_count(t, b)),
        Col::StripeSize => spec_cmp_int(meta_stripe_size(t, a), meta_stripe_size(t, b)),
        Col::LustreVersion => spec_lex_cmp(meta_version(t, a), meta_version(t, b)),
        Col::PoolName => spec_lex_cmp(meta_pool(t, a), meta_pool(t, b)),
        Col::ComponentType => spec_lex_cmp(meta_component_type(t, a), meta_component_type(t, b)),
        Col::ComponentIndex => spec_cmp_int(meta_component_index(t, a), meta_component_index(t, b)),
        Col::MirrorCount => spec_cmp_int(meta_mirror_count(t, a), meta_mirror_count(t, b)),
    }
}


fn meta_stripe_count_of(table: &LustreInfoTable, m: &Mount) -> (r: u64)
    ensures
        r as int == meta_stripe_count(table@, *m),
{
    match get_lustre_info(table, m.info.mount_point.as_str()) {
        Some(i) => match i.stripe_count {
            Some(c) => c,
            None => 0,
        },
        None => 0,
    }
}

fn meta_stripe_size_of(table: &LustreInfoTable, m: &Mount) -> (r: u64)
    ensures
        r as int == meta_stripe_size(table@, *m),
{
    match get_lustre_info(table, m.info.mount_point.as_str()) {
        Some(i) => match i.stripe_size {
            Some(c) => c,
            None => 0,
        },
        None => 0,
    }
}

fn meta_component_index_of(table: &LustreInfoTable, m: &Mount) -> (r: u32)
    ensures
        r as int == meta_component_index(table@, *m),
{
    match get_lustre_info(table, m.info.mount_point.as_str()) {
        Some(i) => match i.component_index {
            Some(c) => c,
            None => u32::MAX,
        },
        None => u32::MAX,
    }
}

fn meta_mirror_count_of(table: &LustreInfoTable, m: &Mount) -> (r: u16)
    ensures
        r as int == meta_mirror_count(table@, *m),
{
    match get_lustre_info(table, m.info.mount_point.as_str()) {
        Some(i) => match i.mirror_count {
            Some(c) => c,
            None => 0,
        },
        None => 0,
    }
}

fn meta_version_of(table: &LustreInfoTable, m: &Mount) -> (r: String)
    ensures
        r@ == meta_version(table@, *m),
{
    match get_lustre_info(table, m.info.mount_point.as_str()) {
        Some(i) => match i.lustre_version {
            Some(v) => v,
            None => String::new(),
        },
        None => String::new(),
    }
}

fn meta_pool_of(table: &LustreInfoTable, m: &Mount) -> (r: String)
    ensures
        r@ == meta_pool(table@, *m),
{
    match get_lustre_info(table, m.info.mount_point.as_str()) {
        Some(i) => match i.pool_name {
            Some(v) => v,
            None => String::new(),
        },
        None => String::new(),
    }
}

fn meta_component_type_of(table: &LustreInfoTable, m: &Mount) -> (r: String)
    ensures
        r@ == meta_component_type(table@, *m),
{
    match get_lustre_info(table, m.info.mount_point.as_str()) {
        Some(i) => match i.component_type {
            Some(v) => v,
            None => String::new(),
        },
        None => String::new(),
    }
}

impl Col {
    /// The column's comparator applied to two records, looking cluster
    /// figures up in the metadata table.
    pub fn compare(self, table: &LustreInfoTable, a: &Mount, b: &Mount) -> (r: Ordering)
        ensures
            r == spec_col_cmp(self, table@, *a, *b),
    {
        match self {
            Col::Id => match (a.info.id, b.info.id) {
                (Some(x), Some(y)) => cmp_u32(x, y),
                (Some(_), None) => Ordering::Greater,
                (None, Some(_)) => Ordering::Less,
                (None, None) => Ordering::Equal,
            },
            Col::Dev => match cmp_u32(a.info.dev.major, b.info.dev.major) {
                Ordering::Equal => cmp_u32(a.info.dev.minor, b.info.dev.minor),
                c => c,
            },
            Col::Filesystem => str_lex_cmp(a.info.fs.as_str(), b.info.fs.as_str()),
            Col::Label => match (&a.fs_label, &b.fs_label) {
                (Some(x), Some(y)) => str_lex_cmp(x.as_str(), y.as_str()),
                (Some(_), None) => Ordering::Less,
                (None, Some(_)) => Ordering::Greater,
                (None, None) => Ordering::Equal,
            },
            Col::Type => str_lex_cmp(a.info.fs_type.as_str(), b.info.fs_type.as_str()),
            Col::Remote => cmp_bool(a.info.is_remote(), b.info.is_remote()),
            Col::Disk => match (&a.disk, &b.disk) {
                (Some(x), Some(y)) => {
                    let la = str_to_ascii_lowercase(x.as_str());
                    let lb = str_to_ascii_lowercase(y.as_str());
                    str_lex_cmp(la.as_str(), lb.as_str())
                },
                (Some(_), None) => Ordering::Greater,
                (None, Some(_)) => Ordering::Less,
                (None, None) => Ordering::Equal,
            },
            Col::Used => match (a.stats(), b.stats()) {
                (Some(x), Some(y)) => cmp_u128(x.used(), y.used()),
                (Some(_), None) => Ordering::Greater,
                (None, Some(_)) => Ordering::Less,
                (None, None) => Ordering::Equal,
            },
            Col::Use => match (a.stats(), b.stats()) {
                (Some(x), Some(y)) => cmp_use_share(x, y),
                (Some(_), None) => Ordering::Greater,
                (None, Some(_)) => Ordering::Less,
                (None, None) => Ordering::Equal,
            },
            Col::UsePercent => match (a.stats(), b.stats()) {
                (Some(x), Some(y)) => cmp_use_share(x, y),
                (Some(_), None) => Ordering::Greater,
                (None, Some(_)) => Ordering::Less,
                (None, None) => Ordering::Equal,
            },
            Col::Free => match (a.stats(), b.stats()) {
                (Some(x), Some(y)) => cmp_u128(x.available(), y.available()),
                (Some(_), None) => Ordering::Greater,
                (None, Some(_)) => Ordering::Less,
                (None, None) => Ordering::Equal,
            },
            Col::FreePercent => match (a.stats(), b.stats()) {
                (Some(x), Some(y)) => cmp_use_share(y, x),
                (Some(_), None) => Ordering::Greater,
                (None, Some(_)) => Ordering::Less,
                (None, None) => Ordering::Equal,
            },
            Col::Size => match (a.stats(), b.stats()) {
                (Some(x), Some(y)) => cmp_u128(x.size(), y.size()),
                (Some(_), None) => Ordering::Greater,
                (None, Some(_)) => Ordering::Less,
                (None, None) => Ordering::Equal,
            },
            Col::InodesUsed => match (a.inodes(), b.inodes()) {
                (Some(x), Some(y)) => cmp_u64(x.used(), y.used()),
                (Some(_), None) => Ordering::Greater,
                (None, Some(_)) => Ordering::Less,
                (None, None) => Ordering::Equal,
            },
            Col::InodesUse => match (a.inodes(), b.inodes()) {
                (Some(x), Some(y)) => cmp_inode_share(x, y),
                (Some(_), None) => Ordering::Greater,
                (None, Some(_)) => Ordering::Less,
                (None, None) => Ordering::Equal,
            },
            Col::InodesUsePercent => match (a.inodes(), b.inodes()) {
                (Some(x), Some(y)) => cmp_inode_share(x, y),
                (Some(_), None) => Ordering::Greater,
                (None, Some(_)) => Ordering::Less,
                (None, None) => Ordering::Equal,
            },
            Col::InodesFree => match (a.inodes(), b.inodes()) {
                (Some(x), Some(y)) => cmp_u64(x.favail, y.favail),
                (Some(_), None) => Ordering::Greater,
                (None, Some(_)) => Ordering::Less,
                (None, None) => Ordering::Equal,
            },
            Col::InodesCount => match (a.inodes(), b.inodes()) {
                (Some(x), Some(y)) => cmp_u64(x.files, y.files),
                (Some(_), None) => Ordering::Greater,
                (None, Some(_)) => Ordering::Less,
                (None, None) => Ordering::Equal,
            },
            Col::MountPoint => str_lex_cmp(a.info.mount_point.as_str(), b.info.mount_point.as_str()),
            Col::FsName => {
                let fa = extract_fsname(a);
                let fb = extract_fsname(b);
                str_lex_cmp(fa.as_str(), fb.as_str())
            },
            Col::Uuid => match (&a.uuid, &b.uuid) {
                (Some(x), Some(y)) => str_lex_cmp(x.as_str(), y.as_str()),
                (Some(_), None) => Ordering::Less,
                (None, Some(_)) => Ordering::Greater,
                (None, None) => Ordering::Equal,
            },
            Col::PartUuid => match (&a.part_uuid, &b.part_uuid) {
                (Some(x), Some(y)) => str_lex_cmp(x.as_str(), y.as_str()),
                (Some(_), None) => Ordering::Less,
                (None, Some(_)) => Ordering::Greater,
                (None, None) => Ordering::Equal,
            },
            Col::StripeCount => cmp_u64(meta_stripe_count_of(table, a), meta_stripe_count_of(table, b)),
            Col::StripeSize => cmp_u64(meta_stripe_size_of(table, a), meta_stripe_size_of(table, b)),
            Col::LustreVersion => {
                let va = meta_version_of(table, a);
                let vb = meta_version_of(table, b);
                str_lex_cmp(va.as_str(), vb.as_str())
            },
            Col::PoolName => {
                let va = meta_pool_of(table, a);
                let vb = meta_pool_of(table, b);
                str_lex_cmp(va.as_str(), vb.as_str())
            },
            Col::ComponentType => {
                let va = meta_component_type_of(table, a);
                let vb = meta_component_type_of(table, b);
                str_lex_cmp(va.as_str(), vb.as_str())
            },
            Col::ComponentIndex => cmp_u32(meta_component_index_of(table, a), meta_component_index_of(table, b)),
            Col::MirrorCount => cmp_u64(meta_mirror_count_of(table, a) as u64, meta_mirror_count_of(table, b) as u64),
        }
    }
}

/// The topology ordering of a cluster-only view: the aggregate record sorts
/// last; among component rows metadata targets come before object targets
/// and, within one family, lower indices first; names that spell no
/// component fall back to lexicographic comparison.
pub open spec fn spec_topo_cmp(a: Mount, b: Mount) -> Ordering {
    let a_agg = a.kind == MountKind::ClusterAggregate;
    let b_agg = b.kind == MountKind::ClusterAggregate;
    if a_agg && !b_agg {
        Ordering::Greater
    } else if !a_agg && b_agg {
        Ordering::Less
    } else if a_agg && b_agg {
        spec_lex_cmp(a.info.fs@, b.info.fs@)
    } else {
        match (spec_parse_lustre_component(a.info.fs@), spec_parse_lustre_component(b.info.fs@)) {
            (Some(pa), Some(pb)) => if pa.0 == "MDT"@ && pb.0 == "OST"@ {
                Ordering::Less
            } else if pa.0 == "OST"@ && pb.0 == "MDT"@ {
                Ordering::Greater
            } else {
                spec_cmp_int(pa.1 as int, pb.1 as int)
            },
            _ => spec_lex_cmp(a.info.fs@, b.info.fs@),
        }
    }
}

/// Compares two records in cluster topology order.
pub fn topo_cmp(a: &Mount, b: &Mount) -> (r: Ordering)
    ensures
        r == spec_topo_cmp(*a, *b),
{
    let a_agg = match a.kind {
        MountKind::ClusterAggregate => true,
        _ => false,
    };
    let b_agg = match b.kind {
        MountKind::ClusterAggregate => true,
        _ => false,
    };
    if a_agg && !b_agg {
        Ordering::Greater
    } else if !a_agg && b_agg {
        Ordering::Less
    } else if a_agg && b_agg {
        str_lex_cmp(a.info.fs.as_str(), b.info.fs.as_str())
    } else {
        let pa = parse_lustre_component(a.info.fs.as_str());
        let pb = parse_lustre_component(b.info.fs.as_str());
        match (pa, pb) {
            (Some(x), Some(y)) => {
                let x_mdt = crate::strings::str_eq(x.0.as_str(), "MDT");
                let x_ost = crate::strings::str_eq(x.0.as_str(), "OST");
                let y_mdt = crate::strings::str_eq(y.0.as_str(), "MDT");
                let y_ost = crate::strings::str_eq(y.0.as_str(), "OST");
                if x_mdt && y_ost {
                    Ordering::Less
                } else if x_ost && y_mdt {
                    Ordering::Greater
                } else {
                    cmp_u32(x.1, y.1)
                }
            },
            _ => str_lex_cmp(a.info.fs.as_str(), b.info.fs.as_str()),
        }
    }
}

/// How the record list is ordered: by one column in one direction, or in
/// cluster topology order.
#[derive(Clone, Copy, Debug, PartialEq, Eq, Structural)]
pub enum SortKey {
    ByCol(Col, Order),
    Topology,
}

/// The opposite answer, for a descending sort.
pub open spec fn spec_flip(o: Ordering) -> Ordering {
    match o {
        Ordering::Less => Ordering::Greater,
        Ordering::Greater => Ordering::Less,
        Ordering::Equal => Ordering::Equal,
    }
}

/// The comparator a sort key stands for.
pub open spec fn spec_mount_cmp(
    k: SortKey,
    t: Map<Seq<char>, LustreInfo>,
    a: Mount,
    b: Mount,
) -> Ordering {
    match k {
        SortKey::ByCol(c, o) => match o {
            Order::Asc => spec_col_cmp(c, t, a, b),
            Order::Desc => spec_flip(spec_col_cmp(c, t, a, b)),
        },
        SortKey::Topology => spec_topo_cmp(a, b),
    }
}

/// Whether `a` sorts strictly before `b`.
pub open spec fn spec_mount_lt(k: SortKey, t: Map<Seq<char>, LustreInfo>, a: Mount, b: Mount) -> bool {
    spec_mount_cmp(k, t, a, b) == Ordering::Less
}

pub fn mount_cmp(k: SortKey, table: &LustreInfoTable, a: &Mount, b: &Mount) -> (r: Ordering)
    ensures
        r == spec_mount_cmp(k, table@, *a, *b),
{
    match k {
        SortKey::ByCol(c, o) => {
            let raw = c.compare(table, a, b);
            match o {
                Order::Asc => raw,
                Order::Desc => match raw {
                    Ordering::Less => Ordering::Greater,
                    Ordering::Greater => Ordering::Less,
                    Ordering::Equal => Ordering::Equal,
                },
            }
        },
        SortKey::Topology => topo_cmp(a, b),
    }
}

/// A record inserted into an already sorted list, after every record it does
/// not sort strictly before — the stable insertion a sort is built from.
pub open spec fn spec_insert_sorted(
    k: SortKey,
    t: Map<Seq<char>, LustreInfo>,
    x: Mount,
    s: Seq<Mount>,
) -> Seq<Mount>
    decreases s.len(),
{
    if s.len() == 0 {
        seq![x]
    } else if spec_mount_lt(k, t, x, s[0]) {
        seq![x] + s
    } else {
        seq![s[0]] + spec_insert_sorted(k, t, x, s.skip(1))
    }
}

/// The stable sort of a record list under a sort key: every record inserted
/// in turn into the sorted list of the records before it, so records the
/// comparator ties keep their relative order.
pub open spec fn spec_sort_mounts(k: SortKey, t: Map<Seq<char>, LustreInfo>, s: Seq<Mount>) -> Seq<
    Mount,
>
    decreases s.len(),
{
    if s.len() == 0 {
        Seq::empty()
    } else {
        spec_insert_sorted(k, t, s.last(), spec_sort_mounts(k, t, s.drop_last()))
    }
}

/// Inserting at the first position whose record the new one sorts strictly
/// before is what the stable insertion does.
proof fn lemma_insert_at(
    k: SortKey,
    t: Map<Seq<char>, LustreInfo>,
    x: Mount,
    s: Seq<Mount>,
    pos: int,
)
    requires
        0 <= pos <= s.len(),
        forall|j: int| 0 <= j < pos ==> !spec_mount_lt(k, t, x, #[trigger] s[j]),
        pos < s.len() ==> spec_mount_lt(k, t, x, s[pos]),
    ensures
        spec_insert_sorted(k, t, x, s) =~= s.subrange(0, pos) + seq![x] + s.subrange(
            pos,
            s.len() as int,
        ),
    decreases s.len(),
{
    if s.len() == 0 {
    } else if pos == 0 {
    } else {
        assert(!spec_mount_lt(k, t, x, s[0]));
        lemma_insert_at(k, t, x, s.skip(1), pos - 1);
        assert(s.skip(1).subrange(0, pos - 1) =~= s.subrange(1, pos));
        assert(s.skip(1).subrange(pos - 1, s.skip(1).len() as int) =~= s.subrange(
            pos,
            s.len() as int,
        ));
    }
}

/// The first position whose record the new one sorts strictly before.
fn insert_pos(out: &Vec<Mount>, k: SortKey, table: &LustreInfoTable, x: &Mount) -> (pos: usize)
    ensures
        pos <= out@.len(),
        forall|l: int| 0 <= l < pos ==> !spec_mount_lt(k, table@, *x, #[trigger] out@[l]),
        pos < out@.len() ==> spec_mount_lt(k, table@, *x, out@[pos as int]),
{
    let n = out.len();
    let mut j: usize = 0;
    while j < n
        invariant
            n == out@.len(),
            j <= n,
            forall|l: int| 0 <= l < j ==> !spec_mount_lt(k, table@, *x, #[trigger] out@[l]),
        decreases n - j,
    {
        let c = mount_cmp(k, table, x, &out[j]);
        match c {
            Ordering::Less => {
                return j;
            },
            _ => {},
        }
        j = j + 1;
    }
    n
}

/// Inserts one record into the sorted output at its stable position.
fn insert_mount(out: &mut Vec<Mount>, k: SortKey, table: &LustreInfoTable, x: Mount)
    ensures
        final(out)@ == spec_insert_sorted(k, table@, x, old(out)@),
{
    let ghost gx = x;
    let pos = insert_pos(out, k, table, &x);
    proof {
        lemma_insert_at(k, table@, gx, out@, pos as int);
    }
    let ghost before = out@;
    out.insert(pos, x);
    proof {
        assert(out@ =~= before.subrange(0, pos as int) + seq![gx] + before.subrange(
            pos as int,
            before.len() as int,
        ));
    }
}

/// Sorts the record list under a sort key: the stable sort of the records by
/// the key's comparator.
pub fn sort_mounts_by(mounts: &mut Vec<Mount>, k: SortKey, table: &LustreInfoTable)
    ensures
        final(mounts)@ == spec_sort_mounts(k, table@, old(mounts)@),
{
    let ghost input = mounts@;
    let mut out: Vec<Mount> = Vec::new();
    proof {
        assert(input.subrange(0, 0) =~= Seq::<Mount>::empty());
    }
    while mounts.len() > 0
        invariant
            mounts@.len() <= input.len(),
            mounts@ =~= input.subrange(input.len() - mounts@.len(), input.len() as int),
            out@ == spec_sort_mounts(k, table@, input.subrange(0, input.len() - mounts@.len())),
        decreases mounts@.len(),
    {
        let ghost i = input.len() - mounts@.len();
        let x = mounts.remove(0);
        proof {
            assert(input.subrange(0, i + 1).drop_last() =~= input.subrange(0, i));
            assert(input.subrange(0, i + 1).last() == input[i]);
            assert(mounts@ =~= input.subrange(i + 1, input.len() as int));
        }
        insert_mount(&mut out, k, table, x);
    }
    proof {
        assert(input.subrange(0, input.len() as int) =~= input);
    }
    *mounts = out;
}

/// Sorts the record list by one column in the given direction.
pub fn sort_mounts(mounts: &mut Vec<Mount>, col: Col, order: Order, table: &LustreInfoTable)
    ensures
        final(mounts)@ == spec_sort_mounts(SortKey::ByCol(col, order), table@, old(mounts)@),
{
    sort_mounts_by(mounts, SortKey::ByCol(col, order), table);
}

/// Sorts a cluster-only view in topology order: metadata targets, then
/// object targets by index, then the aggregate row.
pub fn sort_lustre_mounts(mounts: &mut Vec<Mount>)
    ensures
        final(mounts)@ == spec_sort_mounts(
            SortKey::Topology,
            Map::<Seq<char>, LustreInfo>::empty(),
            old(mounts)@,
        ),
{
    let table = LustreInfoTable::new();
    sort_mounts_by(mounts, SortKey::Topology, &table);
}

/// Stable insertion only adds the one record.
proof fn lemma_insert_sorted_permutes(
    k: SortKey,
    t: Map<Seq<char>, LustreInfo>,
    x: Mount,
    s: Seq<Mount>,
)
    ensures
        spec_insert_sorted(k, t, x, s).to_multiset() =~= s.to_multiset().insert(x),
    decreases s.len(),
{
    broadcast use vstd::seq_lib::group_to_multiset_ensures;

    if s.len() == 0 {
        assert(spec_insert_sorted(k, t, x, s) =~= Seq::empty().push(x));
    } else if spec_mount_lt(k, t, x, s[0]) {
        assert(seq![x] + s =~= s.insert(0, x));
        vstd::seq_lib::lemma_multiset_commutative(seq![x], s);
        assert(seq![x].to_multiset() =~= Multiset::empty().insert(x));
    } else {
        lemma_insert_sorted_permutes(k, t, x, s.skip(1));
        let rest = spec_insert_sorted(k, t, x, s.skip(1));
        assert(spec_insert_sorted(k, t, x, s) == seq![s[0]] + rest);
        vstd::seq_lib::lemma_multiset_commutative(seq![s[0]], rest);
        assert(seq![s[0]].to_multiset() =~= Multiset::empty().insert(s[0]));
        assert(s =~= seq![s[0]] + s.skip(1));
        vstd::seq_lib::lemma_multiset_commutative(seq![s[0]], s.skip(1));
    }
}

/// Sorting permutes the records: the sorted list holds exactly the records
/// of the input, each as often as it came in.
pub proof fn law_sort_mounts_permutes(k: SortKey, t: Map<Seq<char>, LustreInfo>, s: Seq<Mount>)
    ensures
        spec_sort_mounts(k, t, s).to_multiset() =~= s.to_multiset(),
    decreases s.len(),
{
    broadcast use vstd::seq_lib::group_to_multiset_ensures;

    if s.len() > 0 {
        law_sort_mounts_permutes(k, t, s.drop_last());
        lemma_insert_sorted_permutes(k, t, s.last(), spec_sort_mounts(k, t, s.drop_last()));
        assert(s =~= s.drop_last().push(s.last()));
        assert(s.drop_last().push(s.last()).to_multiset() =~= s.drop_last().to_multiset().insert(
            s.last(),
        ));
    }
}



/// Comparing usage shares chains: a share at most a middle share is at most
/// anything the middle share is at most.
proof fn lemma_cmp_ratio_trans(k1: (int, int), k2: (int, int), k3: (int, int))
    requires
        k1.1 > 0,
        k2.1 > 0,
        k3.1 > 0,
        spec_cmp_ratio(k1, k2) != Ordering::Greater,
        spec_cmp_ratio(k2, k3) != Ordering::Greater,
    ensures
        spec_cmp_ratio(k1, k3) != Ordering::Greater,
        spec_cmp_ratio(k1, k2) == Ordering::Less || spec_cmp_ratio(k2, k3) == Ordering::Less
            ==> spec_cmp_ratio(k1, k3) == Ordering::Less,
{
    let (a1, d1) = k1;
    let (a2, d2) = k2;
    let (a3, d3) = k3;
    assert((a1 * d2 <= a2 * d1 && a2 * d3 <= a3 * d2 ==> a1 * d3 <= a3 * d1) && (a1 * d2 < a2 * d1
        && a2 * d3 <= a3 * d2 ==> a1 * d3 < a3 * d1) && (a1 * d2 <= a2 * d1 && a2 * d3 < a3 * d2
        ==> a1 * d3 < a3 * d1)) by (nonlinear_arith)
        requires
            d1 > 0,
            d2 > 0,
            d3 > 0,
    ;
}

/// Every column comparator is antisymmetric: swapping the records mirrors
/// the answer.
pub proof fn law_col_cmp_antisymmetric(c: Col, t: Map<Seq<char>, LustreInfo>, a: Mount, b: Mount)
    ensures
        spec_col_cmp(c, t, b, a) == spec_flip(spec_col_cmp(c, t, a, b)),
{
    match c {
        Col::Id => {},
        Col::Dev => {},
        Col::Filesystem => {
            crate::strings::lemma_lex_cmp_flip(a.info.fs@, b.info.fs@);
        },
        Col::Label => {
            match (opt_view(a.fs_label), opt_view(b.fs_label)) {
                (Some(x), Some(y)) => {
                    crate::strings::lemma_lex_cmp_flip(x, y);
                },
                _ => {},
            }
        },
        Col::Type => {
            crate::strings::lemma_lex_cmp_flip(a.info.fs_type@, b.info.fs_type@);
        },
        Col::Remote => {},
        Col::Disk => {
            match (opt_lower(a.disk), opt_lower(b.disk)) {
                (Some(x), Some(y)) => {
                    crate::strings::lemma_lex_cmp_flip(x, y);
                },
                _ => {},
            }
        },
        Col::Used => {},
        Col::Use => {},
        Col::UsePercent => {},
        Col::Free => {},
        Col::FreePercent => {},
        Col::Size => {},
        Col::InodesUsed => {},
        Col::InodesUse => {},
        Col::InodesUsePercent => {},
        Col::InodesFree => {},
        Col::InodesCount => {},
        Col::MountPoint => {
            crate::strings::lemma_lex_cmp_flip(a.info.mount_point@, b.info.mount_point@);
        },
        Col::FsName => {
            crate::strings::lemma_lex_cmp_flip(spec_extract_fsname(a), spec_extract_fsname(b));
        },
        Col::Uuid => {
            match (opt_view(a.uuid), opt_view(b.uuid)) {
                (Some(x), Some(y)) => {
                    crate::strings::lemma_lex_cmp_flip(x, y);
                },
                _ => {},
            }
        },
        Col::PartUuid => {
            match (opt_view(a.part_uuid), opt_view(b.part_uuid)) {
                (Some(x), Some(y)) => {
                    crate::strings::lemma_lex_cmp_flip(x, y);
                },
                _ => {},
            }
        },
        Col::StripeCount => {},
        Col::StripeSize => {},
        Col::LustreVersion => {
            crate::strings::lemma_lex_cmp_flip(meta_version(t, a), meta_version(t, b));
        },
        Col::PoolName => {
            crate::strings::lemma_lex_cmp_flip(meta_pool(t, a), meta_pool(t, b));
        },
        Col::ComponentType => {
            crate::strings::lemma_lex_cmp_flip(meta_component_type(t, a), meta_component_type(t, b));
        },
        Col::ComponentIndex => {},
        Col::MirrorCount => {},
    }
}

/// Every column comparator chains: a record not after a middle record is not
/// after anything the middle record is not after, strictly so when either
/// step is strict. With antisymmetry this makes each comparator a strict
/// weak ordering.
pub proof fn law_col_cmp_transitive(
    c: Col,
    t: Map<Seq<char>, LustreInfo>,
    a: Mount,
    b: Mount,
    cm: Mount,
)
    requires
        spec_col_cmp(c, t, a, b) != Ordering::Greater,
        spec_col_cmp(c, t, b, cm) != Ordering::Greater,
    ensures
        spec_col_cmp(c, t, a, cm) != Ordering::Greater,
        spec_col_cmp(c, t, a, b) == Ordering::Less || spec_col_cmp(c, t, b, cm) == Ordering::Less
            ==> spec_col_cmp(c, t, a, cm) == Ordering::Less,
{
    lemma_col_cmp_le_trans(c, t, a, b, cm);
}

proof fn lemma_cmp_trans_id(t: Map<Seq<char>, LustreInfo>, a: Mount, b: Mount, cm: Mount)
    requires
        spec_col_cmp(Col::Id, t, a, b) != Ordering::Greater,
        spec_col_cmp(Col::Id, t, b, cm) != Ordering::Greater,
    ensures
        spec_col_cmp(Col::Id, t, a, cm) != Ordering::Greater,
        spec_col_cmp(Col::Id, t, a, b) == Ordering::Less || spec_col_cmp(Col::Id, t, b, cm)
            == Ordering::Less ==> spec_col_cmp(Col::Id, t, a, cm) == Ordering::Less,
{
}

proof fn lemma_cmp_trans_dev(t: Map<Seq<char>, LustreInfo>, a: Mount, b: Mount, cm: Mount)
    requires
        spec_col_cmp(Col::Dev, t, a, b) != Ordering::Greater,
        spec_col_cmp(Col::Dev, t, b, cm) != Ordering::Greater,
    ensures
        spec_col_cmp(Col::Dev, t, a, cm) != Ordering::Greater,
        spec_col_cmp(Col::Dev, t, a, b) == Ordering::Less || spec_col_cmp(Col::Dev, t, b, cm)
            == Ordering::Less ==> spec_col_cmp(Col::Dev, t, a, cm) == Ordering::Less,
{
}

proof fn lemma_cmp_trans_filesystem(t: Map<Seq<char>, LustreInfo>, a: Mount, b: Mount, cm: Mount)
    requires
        spec_col_cmp(Col::Filesystem, t, a, b) != Ordering::Greater,
        spec_col_cmp(Col::Filesystem, t, b, cm) != Ordering::Greater,
    ensures
        spec_col_cmp(Col::Filesystem, t, a, cm) != Ordering::Greater,
        spec_col_cmp(Col::Filesystem, t, a, b) == Ordering::Less || spec_col_cmp(Col::Filesystem, t, b, cm)
            == Ordering::Less ==> spec_col_cmp(Col::Filesystem, t, a, cm) == Ordering::Less,
{
    crate::strings::lemma_lex_cmp_flip(a.info.fs@, b.info.fs@);
    crate::strings::lemma_lex_cmp_flip(b.info.fs@, cm.info.fs@);
    crate::strings::lemma_lex_cmp_flip(a.info.fs@, cm.info.fs@);
    if spec_lex_cmp(a.info.fs@, b.info.fs@) != Ordering::Greater && spec_lex_cmp(b.info.fs@, cm.info.fs@)
        != Ordering::Greater {
        crate::strings::lemma_lex_cmp_trans(a.info.fs@, b.info.fs@, cm.info.fs@);
    }
}

proof fn lemma_cmp_trans_label(t: Map<Seq<char>, LustreInfo>, a: Mount, b: Mount, cm: Mount)
    requires
        spec_col_cmp(Col::Label, t, a, b) != Ordering::Greater,
        spec_col_cmp(Col::Label, t, b, cm) != Ordering::Greater,
    ensures
        spec_col_cmp(Col::Label, t, a, cm) != Ordering::Greater,
        spec_col_cmp(Col::Label, t, a, b) == Ordering::Less || spec_col_cmp(Col::Label, t, b, cm)
            == Ordering::Less ==> spec_col_cmp(Col::Label, t, a, cm) == Ordering::Less,
{
    match (opt_view(a.fs_label), opt_view(b.fs_label), opt_view(cm.fs_label)) {
        (Some(x), Some(y), Some(z)) => {
            crate::strings::lemma_lex_cmp_flip(x, y);
            crate::strings::lemma_lex_cmp_flip(y, z);
            crate::strings::lemma_lex_cmp_flip(x, z);
            if spec_lex_cmp(x, y) != Ordering::Greater && spec_lex_cmp(y, z)
                != Ordering::Greater {
                crate::strings::lemma_lex_cmp_trans(x, y, z);
            }
        },
        _ => {},
    }
}

proof fn lemma_cmp_trans_type(t: Map<Seq<char>, LustreInfo>, a: Mount, b: Mount, cm: Mount)
    requires
        spec_col_cmp(Col::Type, t, a, b) != Ordering::Greater,
        spec_col_cmp(Col::Type, t, b, cm) != Ordering::Greater,
    ensures
        spec_col_cmp(Col::Type, t, a, cm) != Ordering::Greater,
        spec_col_cmp(Col::Type, t, a, b) == Ordering::Less || spec_col_cmp(Col::Type, t, b, cm)
            == Ordering::Less ==> spec_col_cmp(Col::Type, t, a, cm) == Ordering::Less,
{
    crate::strings::lemma_lex_cmp_flip(a.info.fs_type@, b.info.fs_type@);
    crate::strings::lemma_lex_cmp_flip(b.info.fs_type@, cm.info.fs_type@);
    crate::strings::lemma_lex_cmp_flip(a.info.fs_type@, cm.info.fs_type@);
    if spec_lex_cmp(a.info.fs_type@, b.info.fs_type@) != Ordering::Greater && spec_lex_cmp(b.info.fs_type@, cm.info.fs_type@)
        != Ordering::Greater {
        crate::strings::lemma_lex_cmp_trans(a.info.fs_type@, b.info.fs_type@, cm.info.fs_type@);
    }
}

proof fn lemma_cmp_trans_remote(t: Map<Seq<char>, LustreInfo>, a: Mount, b: Mount, cm: Mount)
    requires
        spec_col_cmp(Col::Remote, t, a, b) != Ordering::Greater,
        spec_col_cmp(Col::Remote, t, b, cm) != Ordering::Greater,
    ensures
        spec_col_cmp(Col::Remote, t, a, cm) != Ordering::Greater,
        spec_col_cmp(Col::Remote, t, a, b) == Ordering::Less || spec_col_cmp(Col::Remote, t, b, cm)
            == Ordering::Less ==> spec_col_cmp(Col::Remote, t, a, cm) == Ordering::Less,
{
}

proof fn lemma_cmp_trans_disk(t: Map<Seq<char>, LustreInfo>, a: Mount, b: Mount, cm: Mount)
    requires
        spec_col_cmp(Col::Disk, t, a, b) != Ordering::Greater,
        spec_col_cmp(Col::Disk, t, b, cm) != Ordering::Greater,
    ensures
        spec_col_cmp(Col::Disk, t, a, cm) != Ordering::Greater,
        spec_col_cmp(Col::Disk, t, a, b) == Ordering::Less || spec_col_cmp(Col::Disk, t, b, cm)
            == Ordering::Less ==> spec_col_cmp(Col::Disk, t, a, cm) == Ordering::Less,
{
    match (opt_lower(a.disk), opt_lower(b.disk), opt_lower(cm.disk)) {
        (Some(x), Some(y), Some(z)) => {
            crate::strings::lemma_lex_cmp_flip(x, y);
            crate::strings::lemma_lex_cmp_flip(y, z);
            crate::strings::lemma_lex_cmp_flip(x, z);
            if spec_lex_cmp(x, y) != Ordering::Greater && spec_lex_cmp(y, z)
                != Ordering::Greater {
                crate::strings::lemma_lex_cmp_trans(x, y, z);
            }
        },
        _ => {},
    }
}

proof fn lemma_cmp_trans_used(t: Map<Seq<char>, LustreInfo>, a: Mount, b: Mount, cm: Mount)
    requires
        spec_col_cmp(Col::Used, t, a, b) != Ordering::Greater,
        spec_col_cmp(Col::Used, t, b, cm) != Ordering::Greater,
    ensures
        spec_col_cmp(Col::Used, t, a, cm) != Ordering::Greater,
        spec_col_cmp(Col::Used, t, a, b) == Ordering::Less || spec_col_cmp(Col::Used, t, b, cm)
            == Ordering::Less ==> spec_col_cmp(Col::Used, t, a, cm) == Ordering::Less,
{
}

proof fn lemma_cmp_trans_use(t: Map<Seq<char>, LustreInfo>, a: Mount, b: Mount, cm: Mount)
    requires
        spec_col_cmp(Col::Use, t, a, b) != Ordering::Greater,
        spec_col_cmp(Col::Use, t, b, cm) != Ordering::Greater,
    ensures
        spec_col_cmp(Col::Use, t, a, cm) != Ordering::Greater,
        spec_col_cmp(Col::Use, t, a, b) == Ordering::Less || spec_col_cmp(Col::Use, t, b, cm)
            == Ordering::Less ==> spec_col_cmp(Col::Use, t, a, cm) == Ordering::Less,
{
    match (a.spec_stats(), b.spec_stats(), cm.spec_stats()) {
        (Some(x), Some(y), Some(z)) => {
            lemma_cmp_ratio_trans(
                spec_use_share_key(x),
                spec_use_share_key(y),
                spec_use_share_key(z),
            );
        },
        _ => {},
    }
}

proof fn lemma_cmp_trans_use_percent(t: Map<Seq<char>, LustreInfo>, a: Mount, b: Mount, cm: Mount)
    requires
        spec_col_cmp(Col::UsePercent, t, a, b) != Ordering::Greater,
        spec_col_cmp(Col::UsePercent, t, b, cm) != Ordering::Greater,
    ensures
        spec_col_cmp(Col::UsePercent, t, a, cm) != Ordering::Greater,
        spec_col_cmp(Col::UsePercent, t, a, b) == Ordering::Less || spec_col_cmp(Col::UsePercent, t, b, cm)
            == Ordering::Less ==> spec_col_cmp(Col::UsePercent, t, a, cm) == Ordering::Less,
{
    match (a.spec_stats(), b.spec_stats(), cm.spec_stats()) {
        (Some(x), Some(y), Some(z)) => {
            lemma_cmp_ratio_trans(
                spec_use_share_key(x),
                spec_use_share_key(y),
                spec_use_share_key(z),
            );
        },
        _ => {},
    }
}

proof fn lemma_cmp_trans_free(t: Map<Seq<char>, LustreInfo>, a: Mount, b: Mount, cm: Mount)
    requires
        spec_col_cmp(Col::Free, t, a, b) != Ordering::Greater,
        spec_col_cmp(Col::Free, t, b, cm) != Ordering::Greater,
    ensures
        spec_col_cmp(Col::Free, t, a, cm) != Ordering::Greater,
        spec_col_cmp(Col::Free, t, a, b) == Ordering::Less || spec_col_cmp(Col::Free, t, b, cm)
            == Ordering::Less ==> spec_col_cmp(Col::Free, t, a, cm) == Ordering::Less,
{
}

proof fn lemma_cmp_trans_free_percent(t: Map<Seq<char>, LustreInfo>, a: Mount, b: Mount, cm: Mount)
    requires
        spec_col_cmp(Col::FreePercent, t, a, b) != Ordering::Greater,
        spec_col_cmp(Col::FreePercent, t, b, cm) != Ordering::Greater,
    ensures
        spec_col_cmp(Col::FreePercent, t, a, cm) != Ordering::Greater,
        spec_col_cmp(Col::FreePercent, t, a, b) == Ordering::Less || spec_col_cmp(Col::FreePercent, t, b, cm)
            == Ordering::Less ==> spec_col_cmp(Col::FreePercent, t, a, cm) == Ordering::Less,
{
    match (a.spec_stats(), b.spec_stats(), cm.spec_stats()) {
        (Some(x), Some(y), Some(z)) => {
            lemma_cmp_ratio_trans(
                spec_use_share_key(z),
                spec_use_share_key(y),
                spec_use_share_key(x),
            );
        },
        _ => {},
    }
}

proof fn lemma_cmp_trans_size(t: Map<Seq<char>, LustreInfo>, a: Mount, b: Mount, cm: Mount)
    requires
        spec_col_cmp(Col::Size, t, a, b) != Ordering::Greater,
        spec_col_cmp(Col::Size, t, b, cm) != Ordering::Greater,
    ensures
        spec_col_cmp(Col::Size, t, a, cm) != Ordering::Greater,
        spec_col_cmp(Col::Size, t, a, b) == Ordering::Less || spec_col_cmp(Col::Size, t, b, cm)
            == Ordering::Less ==> spec_col_cmp(Col::Size, t, a, cm) == Ordering::Less,
{
}

proof fn lemma_cmp_trans_inodes_used(t: Map<Seq<char>, LustreInfo>, a: Mount, b: Mount, cm: Mount)
    requires
        spec_col_cmp(Col::InodesUsed, t, a, b) != Ordering::Greater,
        spec_col_cmp(Col::InodesUsed, t, b, cm) != Ordering::Greater,
    ensures
        spec_col_cmp(Col::InodesUsed, t, a, cm) != Ordering::Greater,
        spec_col_cmp(Col::InodesUsed, t, a, b) == Ordering::Less || spec_col_cmp(Col::InodesUsed, t, b, cm)
            == Ordering::Less ==> spec_col_cmp(Col::InodesUsed, t, a, cm) == Ordering::Less,
{
}

proof fn lemma_cmp_trans_inodes_use(t: Map<Seq<char>, LustreInfo>, a: Mount, b: Mount, cm: Mount)
    requires
        spec_col_cmp(Col::InodesUse, t, a, b) != Ordering::Greater,
        spec_col_cmp(Col::InodesUse, t, b, cm) != Ordering::Greater,
    ensures
        spec_col_cmp(Col::InodesUse, t, a, cm) != Ordering::Greater,
        spec_col_cmp(Col::InodesUse, t, a, b) == Ordering::Less || spec_col_cmp(Col::InodesUse, t, b, cm)
            == Ordering::Less ==> spec_col_cmp(Col::InodesUse, t, a, cm) == Ordering::Less,
{
    match (a.spec_inodes(), b.spec_inodes(), cm.spec_inodes()) {
        (Some(x), Some(y), Some(z)) => {
            lemma_cmp_ratio_trans(
                spec_inode_share_key(x),
                spec_inode_share_key(y),
                spec_inode_share_key(z),
            );
        },
        _ => {},
    }
}

proof fn lemma_cmp_trans_inodes_use_percent(t: Map<Seq<char>, LustreInfo>, a: Mount, b: Mount, cm: Mount)
    requires
        spec_col_cmp(Col::InodesUsePercent, t, a, b) != Ordering::Greater,
        spec_col_cmp(Col::InodesUsePercent, t, b, cm) != Ordering::Greater,
    ensures
        spec_col_cmp(Col::InodesUsePercent, t, a, cm) != Ordering::Greater,
        spec_col_cmp(Col::InodesUsePercent, t, a, b) == Ordering::Less || spec_col_cmp(Col::InodesUsePercent, t, b, cm)
            == Ordering::Less ==> spec_col_cmp(Col::InodesUsePercent, t, a, cm) == Ordering::Less,
{
    match (a.spec_inodes(), b.spec_inodes(), cm.spec_inodes()) {
        (Some(x), Some(y), Some(z)) => {
            lemma_cmp_ratio_trans(
                spec_inode_share_key(x),
                spec_inode_share_key(y),
                spec_inode_share_key(z),
            );
        },
        _ => {},
    }
}

proof fn lemma_cmp_trans_inodes_free(t: Map<Seq<char>, LustreInfo>, a: Mount, b: Mount, cm: Mount)
    requires
        spec_col_cmp(Col::InodesFree, t, a, b) != Ordering::Greater,
        spec_col_cmp(Col::InodesFree, t, b, cm) != Ordering::Greater,
    ensures
        spec_col_cmp(Col::InodesFree, t, a, cm) != Ordering::Greater,
        spec_col_cmp(Col::InodesFree, t, a, b) == Ordering::Less || spec_col_cmp(Col::InodesFree, t, b, cm)
            == Ordering::Less ==> spec_col_cmp(Col::InodesFree, t, a, cm) == Ordering::Less,
{
}

proof fn lemma_cmp_trans_inodes_count(t: Map<Seq<char>, LustreInfo>, a: Mount, b: Mount, cm: Mount)
    requires
        spec_col_cmp(Col::InodesCount, t, a, b) != Ordering::Greater,
        spec_col_cmp(Col::InodesCount, t, b, cm) != Ordering::Greater,
    ensures
        spec_col_cmp(Col::InodesCount, t, a, cm) != Ordering::Greater,
        spec_col_cmp(Col::InodesCount, t, a, b) == Ordering::Less || spec_col_cmp(Col::InodesCount, t, b, cm)
            == Ordering::Less ==> spec_col_cmp(Col::InodesCount, t, a, cm) == Ordering::Less,
{
}

proof fn lemma_cmp_trans_mount_point(t: Map<Seq<char>, LustreInfo>, a: Mount, b: Mount, cm: Mount)
    requires
        spec_col_cmp(Col::MountPoint, t, a, b) != Ordering::Greater,
        spec_col_cmp(Col::MountPoint, t, b, cm) != Ordering::Greater,
    ensures
        spec_col_cmp(Col::MountPoint, t, a, cm) != Ordering::Greater,
        spec_col_cmp(Col::MountPoint, t, a, b) == Ordering::Less || spec_col_cmp(Col::MountPoint, t, b, cm)
            == Ordering::Less ==> spec_col_cmp(Col::MountPoint, t, a, cm) == Ordering::Less,
{
    crate::strings::lemma_lex_cmp_flip(a.info.mount_point@, b.info.mount_point@);
    crate::strings::lemma_lex_cmp_flip(b.info.mount_point@, cm.info.mount_point@);
    crate::strings::lemma_lex_cmp_flip(a.info.mount_point@, cm.info.mount_point@);
    if spec_lex_cmp(a.info.mount_point@, b.info.mount_point@) != Ordering::Greater && spec_lex_cmp(b.info.mount_point@, cm.info.mount_point@)
        != Ordering::Greater {
        crate::strings::lemma_lex_cmp_trans(a.info.mount_point@, b.info.mount_point@, cm.info.mount_point@);
    }
}

proof fn lemma_cmp_trans_fs_name(t: Map<Seq<char>, LustreInfo>, a: Mount, b: Mount, cm: Mount)
    requires
        spec_col_cmp(Col::FsName, t, a, b) != Ordering::Greater,
        spec_col_cmp(Col::FsName, t, b, cm) != Ordering::Greater,
    ensures
        spec_col_cmp(Col::FsName, t, a, cm) != Ordering::Greater,
        spec_col_cmp(Col::FsName, t, a, b) == Ordering::Less || spec_col_cmp(Col::FsName, t, b, cm)
            == Ordering::Less ==> spec_col_cmp(Col::FsName, t, a, cm) == Ordering::Less,
{
    crate::strings::lemma_lex_cmp_flip(spec_extract_fsname(a), spec_extract_fsname(b));
    crate::strings::lemma_lex_cmp_flip(spec_extract_fsname(b), spec_extract_fsname(cm));
    crate::strings::lemma_lex_cmp_flip(spec_extract_fsname(a), spec_extract_fsname(cm));
    if spec_lex_cmp(spec_extract_fsname(a), spec_extract_fsname(b)) != Ordering::Greater && spec_lex_cmp(spec_extract_fsname(b), spec_extract_fsname(cm))
        != Ordering::Greater {
        crate::strings::lemma_lex_cmp_trans(spec_extract_fsname(a), spec_extract_fsname(b), spec_extract_fsname(cm));
    }
}

proof fn lemma_cmp_trans_uuid(t: Map<Seq<char>, LustreInfo>, a: Mount, b: Mount, cm: Mount)
    requires
        spec_col_cmp(Col::Uuid, t, a, b) != Ordering::Greater,
        spec_col_cmp(Col::Uuid, t, b, cm) != Ordering::Greater,
    ensures
        spec_col_cmp(Col::Uuid, t, a, cm) != Ordering::Greater,
        spec_col_cmp(Col::Uuid, t, a, b) == Ordering::Less || spec_col_cmp(Col::Uuid, t, b, cm)
            == Ordering::Less ==> spec_col_cmp(Col::Uuid, t, a, cm) == Ordering::Less,
{
    match (opt_view(a.uuid), opt_view(b.uuid), opt_view(cm.uuid)) {
        (Some(x), Some(y), Some(z)) => {
            crate::strings::lemma_lex_cmp_flip(x, y);
            crate::strings::lemma_lex_cmp_flip(y, z);
            crate::strings::lemma_lex_cmp_flip(x, z);
            if spec_lex_cmp(x, y) != Ordering::Greater && spec_lex_cmp(y, z)
                != Ordering::Greater {
                crate::strings::lemma_lex_cmp_trans(x, y, z);
            }
        },
        _ => {},
    }
}

proof fn lemma_cmp_trans_part_uuid(t: Map<Seq<char>, LustreInfo>, a: Mount, b: Mount, cm: Mount)
    requires
        spec_col_cmp(Col::PartUuid, t, a, b) != Ordering::Greater,
        spec_col_cmp(Col::PartUuid, t, b, cm) != Ordering::Greater,
    ensures
        spec_col_cmp(Col::PartUuid, t, a, cm) != Ordering::Greater,
        spec_col_cmp(Col::PartUuid, t, a, b) == Ordering::Less || spec_col_cmp(Col::PartUuid, t, b, cm)
            == Ordering::Less ==> spec_col_cmp(Col::PartUuid, t, a, cm) == Ordering::Less,
{
    match (opt_view(a.part_uuid), opt_view(b.part_uuid), opt_view(cm.part_uuid)) {
        (Some(x), Some(y), Some(z)) => {
            crate::strings::lemma_lex_cmp_flip(x, y);
            crate::strings::lemma_lex_cmp_flip(y, z);
            crate::strings::lemma_lex_cmp_flip(x, z);
            if spec_lex_cmp(x, y) != Ordering::Greater && spec_lex_cmp(y, z)
                != Ordering::Greater {
                crate::strings::lemma_lex_cmp_trans(x, y, z);
            }
        },
        _ => {},
    }
}

proof fn lemma_cmp_trans_stripe_count(t: Map<Seq<char>, LustreInfo>, a: Mount, b: Mount, cm: Mount)
    requires
        spec_col_cmp(Col::StripeCount, t, a, b) != Ordering::Greater,
        spec_col_cmp(Col::StripeCount, t, b, cm) != Ordering::Greater,
    ensures
        spec_col_cmp(Col::StripeCount, t, a, cm) != Ordering::Greater,
        spec_col_cmp(Col::StripeCount, t, a, b) == Ordering::Less || spec_col_cmp(Col::StripeCount, t, b, cm)
            == Ordering::Less ==> spec_col_cmp(Col::StripeCount, t, a, cm) == Ordering::Less,
{
}

proof fn lemma_cmp_trans_stripe_size(t: Map<Seq<char>, LustreInfo>, a: Mount, b: Mount, cm: Mount)
    requires
        spec_col_cmp(Col::StripeSize, t, a, b) != Ordering::Greater,
        spec_col_cmp(Col::StripeSize, t, b, cm) != Ordering::Greater,
    ensures
        spec_col_cmp(Col::StripeSize, t, a, cm) != Ordering::Greater,
        spec_col_cmp(Col::StripeSize, t, a, b) == Ordering::Less || spec_col_cmp(Col::StripeSize, t, b, cm)
            == Ordering::Less ==> spec_col_cmp(Col::StripeSize, t, a, cm) == Ordering::Less,
{
}

proof fn lemma_cmp_trans_lustre_version(t: Map<Seq<char>, LustreInfo>, a: Mount, b: Mount, cm: Mount)
    requires
        spec_col_cmp(Col::LustreVersion, t, a, b) != Ordering::Greater,
        spec_col_cmp(Col::LustreVersion, t, b, cm) != Ordering::Greater,
    ensures
        spec_col_cmp(Col::LustreVersion, t, a, cm) != Ordering::Greater,
        spec_col_cmp(Col::LustreVersion, t, a, b) == Ordering::Less || spec_col_cmp(Col::LustreVersion, t, b, cm)
            == Ordering::Less ==> spec_col_cmp(Col::LustreVersion, t, a, cm) == Ordering::Less,
{
    crate::strings::lemma_lex_cmp_flip(meta_version(t, a), meta_version(t, b));
    crate::strings::lemma_lex_cmp_flip(meta_version(t, b), meta_version(t, cm));
    crate::strings::lemma_lex_cmp_flip(meta_version(t, a), meta_version(t, cm));
    if spec_lex_cmp(meta_version(t, a), meta_version(t, b)) != Ordering::Greater && spec_lex_cmp(meta_version(t, b), meta_version(t, cm))
        != Ordering::Greater {
        crate::strings::lemma_lex_cmp_trans(meta_version(t, a), meta_version(t, b), meta_version(t, cm));
    }
}

proof fn lemma_cmp_trans_pool_name(t: Map<Seq<char>, LustreInfo>, a: Mount, b: Mount, cm: Mount)
    requires
        spec_col_cmp(Col::PoolName, t, a, b) != Ordering::Greater,
        spec_col_cmp(Col::PoolName, t, b, cm) != Ordering::Greater,
    ensures
        spec_col_cmp(Col::PoolName, t, a, cm) != Ordering::Greater,
        spec_col_cmp(Col::PoolName, t, a, b) == Ordering::Less || spec_col_cmp(Col::PoolName, t, b, cm)
            == Ordering::Less ==> spec_col_cmp(Col::PoolName, t, a, cm) == Ordering::Less,
{
    crate::strings::lemma_lex_cmp_flip(meta_pool(t, a), meta_pool(t, b));
    crate::strings::lemma_lex_cmp_flip(meta_pool(t, b), meta_pool(t, cm));
    crate::strings::lemma_lex_cmp_flip(meta_pool(t, a), meta_pool(t, cm));
    if spec_lex_cmp(meta_pool(t, a), meta_pool(t, b)) != Ordering::Greater && spec_lex_cmp(meta_pool(t, b), meta_pool(t, cm))
        != Ordering::Greater {
        crate::strings::lemma_lex_cmp_trans(meta_pool(t, a), meta_pool(t, b), meta_pool(t, cm));
    }
}

proof fn lemma_cmp_trans_component_type(t: Map<Seq<char>, LustreInfo>, a: Mount, b: Mount, cm: Mount)
    requires
        spec_col_cmp(Col::ComponentType, t, a, b) != Ordering::Greater,
        spec_col_cmp(Col::ComponentType, t, b, cm) != Ordering::Greater,
    ensures
        spec_col_cmp(Col::ComponentType, t, a, cm) != Ordering::Greater,
        spec_col_cmp(Col::ComponentType, t, a, b) == Ordering::Less || spec_col_cmp(Col::ComponentType, t, b, cm)
            == Ordering::Less ==> spec_col_cmp(Col::ComponentType, t, a, cm) == Ordering::Less,
{
    crate::strings::lemma_lex_cmp_flip(meta_component_type(t, a), meta_component_type(t, b));
    crate::strings::lemma_lex_cmp_flip(meta_component_type(t, b), meta_component_type(t, cm));
    crate::strings::lemma_lex_cmp_flip(meta_component_type(t, a), meta_component_type(t, cm));
    if spec_lex_cmp(meta_component_type(t, a), meta_component_type(t, b)) != Ordering::Greater && spec_lex_cmp(meta_component_type(t, b), meta_component_type(t, cm))
        != Ordering::Greater {
        crate::strings::lemma_lex_cmp_trans(meta_component_type(t, a), meta_component_type(t, b), meta_component_type(t, cm));
    }
}

proof fn lemma_cmp_trans_component_index(t: Map<Seq<char>, LustreInfo>, a: Mount, b: Mount, cm: Mount)
    requires
        spec_col_cmp(Col::ComponentIndex, t, a, b) != Ordering::Greater,
        spec_col_cmp(Col::ComponentIndex, t, b, cm) != Ordering::Greater,
    ensures
        spec_col_cmp(Col::ComponentIndex, t, a, cm) != Ordering::Greater,
        spec_col_cmp(Col::ComponentIndex, t, a, b) == Ordering::Less || spec_col_cmp(Col::ComponentIndex, t, b, cm)
            == Ordering::Less ==> spec_col_cmp(Col::ComponentIndex, t, a, cm) == Ordering::Less,
{
}

proof fn lemma_cmp_trans_mirror_count(t: Map<Seq<char>, LustreInfo>, a: Mount, b: Mount, cm: Mount)
    requires
        spec_col_cmp(Col::MirrorCount, t, a, b) != Ordering::Greater,
        spec_col_cmp(Col::MirrorCount, t, b, cm) != Ordering::Greater,
    ensures
        spec_col_cmp(Col::MirrorCount, t, a, cm) != Ordering::Greater,
        spec_col_cmp(Col::MirrorCount, t, a, b) == Ordering::Less || spec_col_cmp(Col::MirrorCount, t, b, cm)
            == Ordering::Less ==> spec_col_cmp(Col::MirrorCount, t, a, cm) == Ordering::Less,
{
}

proof fn lemma_col_cmp_le_trans(c: Col, t: Map<Seq<char>, LustreInfo>, a: Mount, b: Mount, cm: Mount)
    requires
        spec_col_cmp(c, t, a, b) != Ordering::Greater,
        spec_col_cmp(c, t, b, cm) != Ordering::Greater,
    ensures
        spec_col_cmp(c, t, a, cm) != Ordering::Greater,
        spec_col_cmp(c, t, a, b) == Ordering::Less || spec_col_cmp(c, t, b, cm) == Ordering::Less
            ==> spec_col_cmp(c, t, a, cm) == Ordering::Less,
{
    match c {
        Col::Id => lemma_cmp_trans_id(t, a, b, cm),
        Col::Dev => lemma_cmp_trans_dev(t, a, b, cm),
        Col::Filesystem => lemma_cmp_trans_filesystem(t, a, b, cm),
        Col::Label => lemma_cmp_trans_label(t, a, b, cm),
        Col::Type => lemma_cmp_trans_type(t, a, b, cm),
        Col::Remote => lemma_cmp_trans_remote(t, a, b, cm),
        Col::Disk => lemma_cmp_trans_disk(t, a, b, cm),
        Col::Used => lemma_cmp_trans_used(t, a, b, cm),
        Col::Use => lemma_cmp_trans_use(t, a, b, cm),
        Col::UsePercent => lemma_cmp_trans_use_percent(t, a, b, cm),
        Col::Free => lemma_cmp_trans_free(t, a, b, cm),
        Col::FreePercent => lemma_cmp_trans_free_percent(t, a, b, cm),
        Col::Size => lemma_cmp_trans_size(t, a, b, cm),
        Col::InodesUsed => lemma_cmp_trans_inodes_used(t, a, b, cm),
        Col::InodesUse => lemma_cmp_trans_inodes_use(t, a, b, cm),
        Col::InodesUsePercent => lemma_cmp_trans_inodes_use_percent(t, a, b, cm),
        Col::InodesFree => lemma_cmp_trans_inodes_free(t, a, b, cm),
        Col::InodesCount => lemma_cmp_trans_inodes_count(t, a, b, cm),
        Col::MountPoint => lemma_cmp_trans_mount_point(t, a, b, cm),
        Col::FsName => lemma_cmp_trans_fs_name(t, a, b, cm),
        Col::Uuid => lemma_cmp_trans_uuid(t, a, b, cm),
        Col::PartUuid => lemma_cmp_trans_part_uuid(t, a, b, cm),
        Col::StripeCount => lemma_cmp_trans_stripe_count(t, a, b, cm),
        Col::StripeSize => lemma_cmp_trans_stripe_size(t, a, b, cm),
        Col::LustreVersion => lemma_cmp_trans_lustre_version(t, a, b, cm),
        Col::PoolName => lemma_cmp_trans_pool_name(t, a, b, cm),
        Col::ComponentType => lemma_cmp_trans_component_type(t, a, b, cm),
        Col::ComponentIndex => lemma_cmp_trans_component_index(t, a, b, cm),
        Col::MirrorCount => lemma_cmp_trans_mirror_count(t, a, b, cm),
    }
}

/// Whether no record of the list sorts strictly after a later one.
pub open spec fn spec_sorted(k: SortKey, t: Map<Seq<char>, LustreInfo>, s: Seq<Mount>) -> bool {
    forall|i: int, j: int|
        0 <= i < j < s.len() ==> spec_mount_cmp(k, t, #[trigger] s[i], #[trigger] s[j])
            != Ordering::Greater
}

/// A by-column sort key is antisymmetric, whichever direction it runs in.
proof fn lemma_mount_cmp_flip(k: SortKey, t: Map<Seq<char>, LustreInfo>, a: Mount, b: Mount)
    requires
        k matches SortKey::ByCol(_, _),
    ensures
        spec_mount_cmp(k, t, b, a) == spec_flip(spec_mount_cmp(k, t, a, b)),
{
    match k {
        SortKey::ByCol(c, _) => {
            law_col_cmp_antisymmetric(c, t, a, b);
        },
        SortKey::Topology => {},
    }
}

/// A by-column sort key chains, whichever direction it runs in.
proof fn lemma_mount_cmp_trans(
    k: SortKey,
    t: Map<Seq<char>, LustreInfo>,
    a: Mount,
    b: Mount,
    cm: Mount,
)
    requires
        k matches SortKey::ByCol(_, _),
        spec_mount_cmp(k, t, a, b) != Ordering::Greater,
        spec_mount_cmp(k, t, b, cm) != Ordering::Greater,
    ensures
        spec_mount_cmp(k, t, a, cm) != Ordering::Greater,
        spec_mount_cmp(k, t, a, b) == Ordering::Less || spec_mount_cmp(k, t, b, cm)
            == Ordering::Less ==> spec_mount_cmp(k, t, a, cm) == Ordering::Less,
{
    match k {
        SortKey::ByCol(c, o) => {
            match o {
                Order::Asc => {
                    law_col_cmp_transitive(c, t, a, b, cm);
                },
                Order::Desc => {
                    law_col_cmp_antisymmetric(c, t, a, b);
                    law_col_cmp_antisymmetric(c, t, b, cm);
                    law_col_cmp_antisymmetric(c, t, a, cm);
                    law_col_cmp_transitive(c, t, cm, b, a);
                },
            }
        },
        SortKey::Topology => {},
    }
}

/// Stable insertion into a sorted list leaves it sorted, for a by-column
/// sort key.
#[verifier::rlimit(100)]
#[verifier::spinoff_prover]
proof fn lemma_insert_preserves_sorted(
    k: SortKey,
    t: Map<Seq<char>, LustreInfo>,
    x: Mount,
    s: Seq<Mount>,
)
    requires
        k matches SortKey::ByCol(_, _),
        spec_sorted(k, t, s),
    ensures
        spec_sorted(k, t, spec_insert_sorted(k, t, x, s)),
    decreases s.len(),
{
    broadcast use vstd::seq_lib::group_to_multiset_ensures;

    let r = spec_insert_sorted(k, t, x, s);
    if s.len() == 0 {
        assert(r =~= seq![x]);
    } else if spec_mount_lt(k, t, x, s[0]) {
        assert(r == seq![x] + s);
        assert forall|i: int, j: int|
            0 <= i < j < r.len() implies spec_mount_cmp(k, t, #[trigger] r[i], #[trigger] r[j])
            != Ordering::Greater by {
            if i == 0 {
                if j == 1 {
                    assert(r[j] == s[0]);
                } else {
                    assert(r[j] == s[j - 1]);
                    assert(spec_mount_cmp(k, t, s[0], s[j - 1]) != Ordering::Greater);
                    lemma_mount_cmp_trans(k, t, x, s[0], s[j - 1]);
                }
            } else {
                assert(r[i] == s[i - 1]);
                assert(r[j] == s[j - 1]);
            }
        }
    } else {
        let rest = spec_insert_sorted(k, t, x, s.skip(1));
        assert(r == seq![s[0]] + rest);
        assert(spec_sorted(k, t, s.skip(1)));
        lemma_insert_preserves_sorted(k, t, x, s.skip(1));
        lemma_insert_sorted_permutes(k, t, x, s.skip(1));
        assert forall|i: int, j: int|
            0 <= i < j < r.len() implies spec_mount_cmp(k, t, #[trigger] r[i], #[trigger] r[j])
            != Ordering::Greater by {
            if i == 0 {
                let y = r[j];
                assert(y == rest[j - 1]);
                assert(rest.contains(y));
                assert(rest.to_multiset().count(y) > 0);
                assert(s.skip(1).to_multiset().insert(x).count(y) > 0);
                if y == x {
                    lemma_mount_cmp_flip(k, t, x, s[0]);
                    assert(spec_mount_cmp(k, t, s[0], x) != Ordering::Greater);
                } else {
                    assert(s.skip(1).to_multiset().count(y) > 0);
                    assert(s.skip(1).contains(y));
                    let l = choose|l: int| 0 <= l < s.skip(1).len() && s.skip(1)[l] == y;
                    assert(s[l + 1] == y);
                    assert(spec_mount_cmp(k, t, s[0], s[l + 1]) != Ordering::Greater);
                }
            } else {
                assert(r[i] == rest[i - 1]);
                assert(r[j] == rest[j - 1]);
            }
        }
    }
}

/// Sorting by a column leaves the records in order: no record sorts strictly
/// after a later one under the chosen column and direction.
pub proof fn law_sort_mounts_sorted(k: SortKey, t: Map<Seq<char>, LustreInfo>, s: Seq<Mount>)
    requires
        k matches SortKey::ByCol(_, _),
    ensures
        spec_sorted(k, t, spec_sort_mounts(k, t, s)),
    decreases s.len(),
{
    if s.len() > 0 {
        law_sort_mounts_sorted(k, t, s.drop_last());
        lemma_insert_preserves_sorted(k, t, s.last(), spec_sort_mounts(k, t, s.drop_last()));
    }
}

} // verus!
