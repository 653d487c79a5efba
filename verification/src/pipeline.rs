//! The one-request pipeline: merge the kernel's mount list with the
//! discovered cluster records, pick the view, filter by a requested path,
//! sort, and deduplicate. Strictly sequential, no backtracking; the caller
//! performs the reads and the rendering around it.

use vstd::prelude::*;
use crate::col::Col;
use crate::dedup::{
    check_duplicate, replace_lustre_client_mounts, spec_dedup, spec_replace_clients, spec_summary,
    summary_matches,
};
use crate::lustre::{is_lustre_server_component, is_lustre_component_mount, spec_is_lustre_component_mount, spec_is_lustre_server_component};
use crate::meta::{LustreInfo, LustreInfoTable};
use crate::mount::{DeviceId, Mount};
use crate::normal::{is_normal, spec_is_normal};
use crate::order::Order;
use crate::sort::{sort_lustre_mounts, sort_mounts, spec_sort_mounts, SortKey};
use crate::strings::{seq_is_prefix, str_eq, str_starts_with};
use vstd::string::StrSliceExecFns;

verus! {

/// What the caller learned by statting a requested path: the device backing
/// it, and whether the path lies on a clustered filesystem.
#[derive(Debug)]
pub struct PathQuery {
    pub dev: DeviceId,
    pub is_cluster_path: bool,
    pub path: String,
}

/// The predicates rows are kept by along the pipeline.
#[derive(Debug)]
pub enum RowPred {
    /// not a cluster row whose path looks like a server-side component mount
    NonServer,
    /// one of the synthesized per-target component rows
    Component,
    /// a cluster-managed row
    Cluster,
    /// a row shown without the show-all flag
    Normal,
    /// a row backed by the given device
    DevEq(DeviceId),
    /// a cluster row whose mount point is a path prefix of the given path
    ClusterPathMatch(String),
}

/// Whether the query path lies under the mount point, comparing whole path
/// components.
pub open spec fn spec_path_starts_with(path: Seq<char>, mp: Seq<char>) -> bool {
    ||| path == mp
    ||| (seq_is_prefix(mp, path) && mp.len() < path.len() && (path[mp.len() as int] == '/' || (
    mp.len() > 0 && mp[mp.len() - 1] == '/')))
}

fn path_starts_with(path: &str, mp: &str) -> (r: bool)
    ensures
        r == spec_path_starts_with(path@, mp@),
{
    if str_eq(path, mp) {
        return true;
    }
    if !str_starts_with(path, mp) {
        return false;
    }
    let mplen = mp.unicode_len();
    let plen = path.unicode_len();
    if mplen >= plen {
        return false;
    }
    path.get_char(mplen) == '/' || (mplen > 0 && mp.get_char(mplen - 1) == '/')
}

/// Whether a row passes one of the pipeline's predicates.
pub open spec fn spec_row_pred(p: RowPred, m: Mount) -> bool {
    match p {
        RowPred::NonServer => !(m.info.fs_type@ == "lustre"@ && spec_is_lustre_server_component(
            m.info.mount_point@,
        )),
        RowPred::Component => spec_is_lustre_component_mount(m),
        RowPred::Cluster => m.info.fs_type@ == "lustre"@,
        RowPred::Normal => spec_is_normal(m),
        RowPred::DevEq(d) => m.info.dev == d,
        RowPred::ClusterPathMatch(path) => m.info.fs_type@ == "lustre"@ && spec_path_starts_with(
            path@,
            m.info.mount_point@,
        ),
    }
}

fn row_pred_holds(p: &RowPred, m: &Mount) -> (r: bool)
    ensures
        r == spec_row_pred(*p, *m),
{
    match p {
        RowPred::NonServer => !(str_eq(m.info.fs_type.as_str(), "lustre")
            && is_lustre_server_component(m.info.mount_point.as_str())),
        RowPred::Component => is_lustre_component_mount(m),
        RowPred::Cluster => str_eq(m.info.fs_type.as_str(), "lustre"),
        RowPred::Normal => is_normal(m),
        RowPred::DevEq(d) => m.info.dev.major == d.major && m.info.dev.minor == d.minor,
        RowPred::ClusterPathMatch(path) => str_eq(m.info.fs_type.as_str(), "lustre")
            && path_starts_with(path.as_str(), m.info.mount_point.as_str()),
    }
}

/// The rows of `s` passing the predicate, in order.
pub open spec fn spec_filter_rows(s: Seq<Mount>, p: RowPred) -> Seq<Mount>
    decreases s.len(),
{
    if s.len() == 0 {
        Seq::empty()
    } else if spec_row_pred(p, s.last()) {
        spec_filter_rows(s.drop_last(), p).push(s.last())
    } else {
        spec_filter_rows(s.drop_last(), p)
    }
}

/// The rows of `s` failing the predicate, in order.
pub open spec fn spec_reject_rows(s: Seq<Mount>, p: RowPred) -> Seq<Mount>
    decreases s.len(),
{
    if s.len() == 0 {
        Seq::empty()
    } else if spec_row_pred(p, s.last()) {
        spec_reject_rows(s.drop_last(), p)
    } else {
        spec_reject_rows(s.drop_last(), p).push(s.last())
    }
}

/// Splits the rows into those passing the predicate and the rest, keeping
/// the order on both sides.
fn partition_rows(mounts: Vec<Mount>, p: &RowPred) -> (r: (Vec<Mount>, Vec<Mount>))
    ensures
        r.0@ == spec_filter_rows(mounts@, *p),
        r.1@ == spec_reject_rows(mounts@, *p),
{
    let ghost input = mounts@;
    let mut rest = mounts;
    let mut keep: Vec<Mount> = Vec::new();
    let mut rejected: Vec<Mount> = Vec::new();
    let ghost mut processed: Seq<Mount> = Seq::empty();
    proof {
        assert(input =~= processed + rest@);
    }
    while rest.len() > 0
        invariant
            input == processed + rest@,
            keep@ == spec_filter_rows(processed, *p),
            rejected@ == spec_reject_rows(processed, *p),
        decreases rest@.len(),
    {
        let m = rest.remove(0);
        let ghost gm = m;
        proof {
            assert(processed.push(gm).drop_last() =~= processed);
            processed = processed.push(gm);
            assert(input =~= processed + rest@);
        }
        if row_pred_holds(p, &m) {
            keep.push(m);
        } else {
            rejected.push(m);
        }
    }
    proof {
        assert(processed =~= input);
    }
    (keep, rejected)
}

/// Whether any row is cluster-managed.
pub open spec fn spec_any_cluster(s: Seq<Mount>) -> bool {
    exists|i: int| 0 <= i < s.len() && (#[trigger] s[i]).info.fs_type@ == "lustre"@
}

fn any_cluster(mounts: &Vec<Mount>) -> (r: bool)
    ensures
        r == spec_any_cluster(mounts@),
{
    let n = mounts.len();
    let mut i: usize = 0;
    while i < n
        invariant
            n == mounts@.len(),
            i <= n,
            forall|j: int| 0 <= j < i ==> (#[trigger] mounts@[j]).info.fs_type@ != "lustre"@,
        decreases n - i,
    {
        if str_eq(mounts[i].info.fs_type.as_str(), "lustre") {
            return true;
        }
        i = i + 1;
    }
    false
}

/// Whether every row is cluster-managed.
pub open spec fn spec_all_cluster(s: Seq<Mount>) -> bool {
    forall|i: int| 0 <= i < s.len() ==> (#[trigger] s[i]).info.fs_type@ == "lustre"@
}

fn all_cluster(mounts: &Vec<Mount>) -> (r: bool)
    ensures
        r == spec_all_cluster(mounts@),
{
    let n = mounts.len();
    let mut i: usize = 0;
    while i < n
        invariant
            n == mounts@.len(),
            i <= n,
            forall|j: int| 0 <= j < i ==> (#[trigger] mounts@[j]).info.fs_type@ == "lustre"@,
        decreases n - i,
    {
        if !str_eq(mounts[i].info.fs_type.as_str(), "lustre") {
            return false;
        }
        i = i + 1;
    }
    true
}

/// The record list after the two data sources are merged: the catalog
/// without the server-side component mounts it misreports, with discovered
/// aggregate records replacing or joining the catalog's cluster client rows,
/// and the discovered component records appended.
pub open spec fn spec_merged_rows(catalog: Seq<Mount>, discovered: Seq<Mount>) -> Seq<Mount> {
    spec_replace_clients(
        spec_filter_rows(catalog, RowPred::NonServer),
        spec_reject_rows(discovered, RowPred::Component),
    ) + spec_filter_rows(discovered, RowPred::Component)
}

/// The rows the chosen view retains, sorted: with cluster rows present and
/// no show-all flag, only the cluster rows in topology order; otherwise the
/// normal rows (or, with show-all, every row) in the requested column order.
pub open spec fn spec_view_rows(
    merged: Seq<Mount>,
    all: bool,
    c: Col,
    o: Order,
    t: Map<Seq<char>, LustreInfo>,
) -> Seq<Mount> {
    if !all && spec_any_cluster(merged) {
        spec_sort_mounts(
            SortKey::Topology,
            Map::<Seq<char>, LustreInfo>::empty(),
            spec_filter_rows(merged, RowPred::Cluster),
        )
    } else if !all {
        spec_sort_mounts(SortKey::ByCol(c, o), t, spec_filter_rows(merged, RowPred::Normal))
    } else {
        spec_sort_mounts(SortKey::ByCol(c, o), t, merged)
    }
}

/// The rows surviving the optional path restriction: cluster paths match by
/// prefix, other paths by device identity.
pub open spec fn spec_path_rows(rows: Seq<Mount>, pq: Option<PathQuery>) -> Seq<Mount> {
    match pq {
        Some(q) => if q.is_cluster_path {
            spec_filter_rows(rows, RowPred::ClusterPathMatch(q.path))
        } else {
            spec_filter_rows(rows, RowPred::DevEq(q.dev))
        },
        None => rows,
    }
}

/// Whether the final view shows only cluster rows: cluster rows exist, the
/// show-all flag is absent, and every surviving row is cluster-managed.
pub open spec fn spec_lustre_only_view(
    catalog: Seq<Mount>,
    discovered: Seq<Mount>,
    all: bool,
    c: Col,
    o: Order,
    t: Map<Seq<char>, LustreInfo>,
    pq: Option<PathQuery>,
) -> bool {
    let merged = spec_merged_rows(catalog, discovered);
    let rows = spec_path_rows(spec_view_rows(merged, all, c, o, t), pq);
    spec_any_cluster(merged) && !all && spec_all_cluster(rows)
}

/// The rows the pipeline hands to the external boolean filter.
pub open spec fn spec_prepare_rows(
    catalog: Seq<Mount>,
    discovered: Seq<Mount>,
    all: bool,
    c: Col,
    o: Order,
    t: Map<Seq<char>, LustreInfo>,
    pq: Option<PathQuery>,
) -> Seq<Mount> {
    let merged = spec_merged_rows(catalog, discovered);
    let rows = spec_path_rows(spec_view_rows(merged, all, c, o, t), pq);
    if spec_lustre_only_view(catalog, discovered, all, c, o, t, pq) {
        rows
    } else {
        spec_sort_mounts(SortKey::ByCol(c, o), t, rows)
    }
}

/// Runs the pipeline up to the external boolean filter: merges the catalog
/// with the discovered cluster records, restricts and orders the view, and
/// applies the optional path restriction. Returns the rows and whether the
/// view is cluster-only. A failed path lookup aborts with its message and no
/// rows.
pub fn prepare_mounts(
    catalog: Vec<Mount>,
    discovered: Vec<Mount>,
    all: bool,
    sort_col: Col,
    sort_order: Order,
    path_lookup: Option<Result<PathQuery, String>>,
    table: &LustreInfoTable,
) -> (r: Result<(Vec<Mount>, bool), String>)
    ensures
        match r {
            Ok(out) => {
                let pq = match path_lookup {
                    Some(Ok(q)) => Some(q),
                    _ => None,
                };
                &&& !(path_lookup matches Some(Err(_)))
                &&& out.0@ == spec_prepare_rows(
                    catalog@,
                    discovered@,
                    all,
                    sort_col,
                    sort_order,
                    table@,
                    pq,
                )
                &&& out.1 == spec_lustre_only_view(
                    catalog@,
                    discovered@,
                    all,
                    sort_col,
                    sort_order,
                    table@,
                    pq,
                )
            },
            Err(e) => path_lookup matches Some(Err(msg)) && e@ == msg@,
        },
{
    let pq: Option<PathQuery> = match path_lookup {
        Some(Ok(q)) => Some(q),
        Some(Err(e)) => {
            return Err(e);
        },
        None => None,
    };
    let ghost gpq = pq;

    let (mut mounts, _server_rows) = partition_rows(catalog, &RowPred::NonServer);
    let (components, clients) = partition_rows(discovered, &RowPred::Component);
    replace_lustre_client_mounts(&mut mounts, clients);
    let mut components = components;
    mounts.append(&mut components);
    let ghost merged = mounts@;

    let has_cluster = any_cluster(&mounts);

    if !all && has_cluster {
        let (cluster_rows, _) = partition_rows(mounts, &RowPred::Cluster);
        mounts = cluster_rows;
        sort_lustre_mounts(&mut mounts);
    } else if !all {
        let (normal_rows, _) = partition_rows(mounts, &RowPred::Normal);
        mounts = normal_rows;
        sort_mounts(&mut mounts, sort_col, sort_order, table);
    } else {
        sort_mounts(&mut mounts, sort_col, sort_order, table);
    }

    match &pq {
        Some(q) => {
            if q.is_cluster_path {
                let pred = RowPred::ClusterPathMatch(q.path.clone());
                let (kept, _) = partition_rows(mounts, &pred);
                proof {
                    assert(pred matches RowPred::ClusterPathMatch(s) && s@ == gpq->Some_0.path@);
                }
                mounts = kept;
            } else {
                let (kept, _) = partition_rows(mounts, &RowPred::DevEq(q.dev));
                mounts = kept;
            }
        },
        None => {},
    }

    let view = has_cluster && !all && all_cluster(&mounts);

    if !view {
        sort_mounts(&mut mounts, sort_col, sort_order, table);
    }

    Ok((mounts, view))
}

/// Runs the pipeline after the external boolean filter: deduplicates the
/// rows and, for a cluster-only view, restores the topology order; also
/// returns the per-filesystem path listing deduplication collected.
pub fn finalize_mounts(mounts: Vec<Mount>, is_lustre_only_view: bool) -> (r: (
    Vec<Mount>,
    Vec<(String, Vec<String>)>,
))
    ensures
        r.0@ == if is_lustre_only_view {
            spec_sort_mounts(
                SortKey::Topology,
                Map::<Seq<char>, LustreInfo>::empty(),
                spec_dedup(mounts@),
            )
        } else {
            spec_dedup(mounts@)
        },
        summary_matches(r.1@, spec_summary(mounts@)),
{
    let (mut deduped, summary) = check_duplicate(mounts);
    if is_lustre_only_view {
        sort_lustre_mounts(&mut deduped);
    }
    (deduped, summary)
}

/// The path listing entries worth reporting: the filesystems that were
/// reachable through more than one path.
pub fn multi_mount_entries(summary: Vec<(String, Vec<String>)>) -> (r: Vec<(String, Vec<String>)>)
    ensures
        r@ == spec_multi_mount_entries(summary@),
{
    let ghost input = summary@;
    let mut rest = summary;
    let mut out: Vec<(String, Vec<String>)> = Vec::new();
    let ghost mut processed: Seq<(String, Vec<String>)> = Seq::empty();
    proof {
        assert(input =~= processed + rest@);
    }
    while rest.len() > 0
        invariant
            input == processed + rest@,
            out@ == spec_multi_mount_entries(processed),
        decreases rest@.len(),
    {
        let e = rest.remove(0);
        let ghost ge = e;
        proof {
            assert(processed.push(ge).drop_last() =~= processed);
            processed = processed.push(ge);
            assert(input =~= processed + rest@);
        }
        if e.1.len() > 1 {
            out.push(e);
        }
    }
    proof {
        assert(processed =~= input);
    }
    out
}

/// The entries of the path listing with more than one path.
pub open spec fn spec_multi_mount_entries(s: Seq<(String, Vec<String>)>) -> Seq<(String, Vec<String>)>
    decreases s.len(),
{
    if s.len() == 0 {
        Seq::empty()
    } else if s.last().1@.len() > 1 {
        spec_multi_mount_entries(s.drop_last()).push(s.last())
    } else {
        spec_multi_mount_entries(s.drop_last())
    }
}

} // verus!
