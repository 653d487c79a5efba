//! Deduplication of the merged record list: ordinary filesystems reachable
//! through several paths collapse to one representative row, while
//! cluster-managed rows — each target and the aggregate — always stay
//! distinct.

use vstd::prelude::*;
use core::cmp::Ordering;
use crate::col::{extract_fsname, spec_extract_fsname};
use crate::mount::{Mount, MountKind};
use crate::strings::{spec_lex_cmp, str_eq, str_lex_cmp};

verus! {

/// The identity records are grouped by: ordinary rows group by their backing
/// device, cluster-managed rows by filesystem name and mount path together,
/// so that no two distinct cluster rows ever share a group.
pub enum GroupKey {
    Cluster(Seq<char>, Seq<char>),
    Device(u32, u32),
}

pub open spec fn spec_group_key(m: Mount) -> GroupKey {
    if m.info.fs_type@ == "lustre"@ {
        GroupKey::Cluster(m.info.fs@, m.info.mount_point@)
    } else {
        GroupKey::Device(m.info.dev.major, m.info.dev.minor)
    }
}

/// Whether two records fall into the same deduplication group.
fn same_group(a: &Mount, b: &Mount) -> (r: bool)
    ensures
        r == (spec_group_key(*a) == spec_group_key(*b)),
{
    let a_cluster = str_eq(a.info.fs_type.as_str(), "lustre");
    let b_cluster = str_eq(b.info.fs_type.as_str(), "lustre");
    if a_cluster && b_cluster {
        str_eq(a.info.fs.as_str(), b.info.fs.as_str()) && str_eq(
            a.info.mount_point.as_str(),
            b.info.mount_point.as_str(),
        )
    } else if !a_cluster && !b_cluster {
        a.info.dev.major == b.info.dev.major && a.info.dev.minor == b.info.dev.minor
    } else {
        false
    }
}

/// Whether path `a` is preferred over path `b` when one representative must
/// stand for a whole group: the root path beats everything else, then the
/// shorter path, then the lexicographically smaller one.
pub open spec fn spec_path_better(a: Seq<char>, b: Seq<char>) -> bool {
    if a == "/"@ {
        b != "/"@
    } else if b == "/"@ {
        false
    } else {
        a.len() < b.len() || (a.len() == b.len() && spec_lex_cmp(a, b) == Ordering::Less)
    }
}

fn path_better(a: &str, b: &str) -> (r: bool)
    ensures
        r == spec_path_better(a@, b@),
{
    let a_root = str_eq(a, "/");
    let b_root = str_eq(b, "/");
    if a_root {
        !b_root
    } else if b_root {
        false
    } else {
        let alen = a.unicode_len();
        let blen = b.unicode_len();
        alen < blen || (alen == blen && match str_lex_cmp(a, b) {
            Ordering::Less => true,
            _ => false,
        })
    }
}

/// The position of the first record in the group whose path no other
/// record's path beats, among the first `k` records.
pub open spec fn spec_best_path_idx(g: Seq<Mount>, k: nat) -> int
    decreases k,
{
    if k <= 1 {
        0
    } else {
        let b = spec_best_path_idx(g, (k - 1) as nat);
        if spec_path_better(g[k - 1].info.mount_point@, g[b].info.mount_point@) {
            k - 1
        } else {
            b
        }
    }
}

/// The position of the first aggregate record in the group at or after `i`.
pub open spec fn spec_first_aggregate_from(g: Seq<Mount>, i: nat) -> Option<int>
    decreases g.len() - i,
{
    if i >= g.len() {
        None
    } else if g[i as int].kind == MountKind::ClusterAggregate {
        Some(i as int)
    } else {
        spec_first_aggregate_from(g, i + 1)
    }
}

/// The position of the group member that stands for the whole group: the
/// first aggregate record when the group holds one, else the record with the
/// best path.
pub open spec fn spec_rep_idx(g: Seq<Mount>) -> int {
    match spec_first_aggregate_from(g, 0) {
        Some(i) => i,
        None => spec_best_path_idx(g, g.len()),
    }
}

/// The representative index points into the group.
pub proof fn lemma_rep_idx_in_range(g: Seq<Mount>)
    requires
        g.len() > 0,
    ensures
        0 <= spec_rep_idx(g) < g.len(),
{
    lemma_first_aggregate_in_range(g, 0);
    lemma_best_path_idx_in_range(g, g.len());
}

proof fn lemma_first_aggregate_in_range(g: Seq<Mount>, i: nat)
    ensures
        match spec_first_aggregate_from(g, i) {
            Some(j) => i <= j < g.len() && g[j].kind == MountKind::ClusterAggregate && forall|
                k: int,
            |
                i <= k < j ==> g[k].kind != MountKind::ClusterAggregate,
            None => forall|k: int| i <= k < g.len() ==> g[k].kind != MountKind::ClusterAggregate,
        },
    decreases g.len() - i,
{
    if i >= g.len() {
    } else if g[i as int].kind == MountKind::ClusterAggregate {
    } else {
        lemma_first_aggregate_in_range(g, i + 1);
    }
}

proof fn lemma_best_path_idx_in_range(g: Seq<Mount>, k: nat)
    requires
        k >= 1,
    ensures
        0 <= spec_best_path_idx(g, k) < k,
        forall|j: int|
            0 <= j < k ==> !spec_path_better(
                g[j].info.mount_point@,
                g[spec_best_path_idx(g, k)].info.mount_point@,
            ),
    decreases k,
{
    if k == 1 {
        assert forall|j: int|
            0 <= j < k implies !spec_path_better(
            g[j].info.mount_point@,
            g[spec_best_path_idx(g, k)].info.mount_point@,
        ) by {
            lemma_path_better_irrefl(g[0].info.mount_point@);
        }
    } else {
        lemma_best_path_idx_in_range(g, (k - 1) as nat);
        let b = spec_best_path_idx(g, (k - 1) as nat);
        let r = spec_best_path_idx(g, k);
        assert forall|j: int|
            0 <= j < k implies !spec_path_better(
            g[j].info.mount_point@,
            g[r].info.mount_point@,
        ) by {
            lemma_path_better_irrefl(g[k - 1].info.mount_point@);
            if spec_path_better(g[k - 1].info.mount_point@, g[b].info.mount_point@) {
                if j < k - 1 && spec_path_better(
                    g[j].info.mount_point@,
                    g[k - 1].info.mount_point@,
                ) {
                    lemma_path_better_strict_trans(
                        g[j].info.mount_point@,
                        g[k - 1].info.mount_point@,
                        g[b].info.mount_point@,
                    );
                }
            }
        }
    }
}

/// No path beats itself.
proof fn lemma_path_better_irrefl(a: Seq<char>)
    ensures
        !spec_path_better(a, a),
{
    crate::strings::lemma_lex_cmp_eq(a, a);
}

/// Path preference chains: what beats a path also beats everything that
/// path beats.
proof fn lemma_path_better_strict_trans(a: Seq<char>, b: Seq<char>, c: Seq<char>)
    requires
        spec_path_better(a, b),
        spec_path_better(b, c),
    ensures
        spec_path_better(a, c),
{
    if a == "/"@ {
        assert(b != "/"@);
        assert(c != "/"@);
    } else {
        assert(b != "/"@);
        assert(c != "/"@);
        if a.len() == b.len() && b.len() == c.len() {
            crate::strings::lemma_lex_cmp_trans(a, b, c);
        }
    }
}

/// The position of the first aggregate record, if any.
fn first_aggregate(v: &Vec<Mount>) -> (r: Option<usize>)
    ensures
        match r {
            Some(i) => spec_first_aggregate_from(v@, 0) == Some(i as int),
            None => spec_first_aggregate_from(v@, 0) is None,
        },
{
    let n = v.len();
    let mut i: usize = 0;
    while i < n
        invariant
            n == v@.len(),
            i <= n,
            spec_first_aggregate_from(v@, 0) == spec_first_aggregate_from(v@, i as nat),
        decreases n - i,
    {
        let is_agg = match v[i].kind {
            MountKind::ClusterAggregate => true,
            _ => false,
        };
        if is_agg {
            return Some(i);
        }
        i = i + 1;
    }
    None
}

/// Picks the record that stands for a whole group of duplicates: an
/// aggregate record when the group holds one, else the record whose mount
/// path is the root path, the shortest one, or the lexicographically
/// smallest among equally short ones.
pub fn choose_representative_mount(mounts: Vec<Mount>) -> (r: Mount)
    requires
        mounts@.len() > 0,
    ensures
        r == mounts@[spec_rep_idx(mounts@)],
{
    let mut v = mounts;
    let idx: usize = match first_aggregate(&v) {
        Some(i) => i,
        None => {
            let n = v.len();
            let mut best: usize = 0;
            let mut j: usize = 1;
            while j < n
                invariant
                    n == v@.len(),
                    n >= 1,
                    1 <= j <= n,
                    best < j,
                    best == spec_best_path_idx(v@, j as nat),
                decreases n - j,
            {
                if path_better(v[j].info.mount_point.as_str(), v[best].info.mount_point.as_str()) {
                    best = j;
                }
                j = j + 1;
            }
            best
        },
    };
    proof {
        lemma_rep_idx_in_range(v@);
    }
    v.remove(idx)
}

/// The distinct group keys of a record list, in order of first appearance.
pub open spec fn spec_distinct_keys(s: Seq<Mount>) -> Seq<GroupKey>
    decreases s.len(),
{
    if s.len() == 0 {
        Seq::empty()
    } else {
        let rest = spec_distinct_keys(s.drop_last());
        if rest.contains(spec_group_key(s.last())) {
            rest
        } else {
            rest.push(spec_group_key(s.last()))
        }
    }
}

/// The records of `s` whose key is `k`, in order.
pub open spec fn spec_group_of(s: Seq<Mount>, k: GroupKey) -> Seq<Mount>
    decreases s.len(),
{
    if s.len() == 0 {
        Seq::empty()
    } else if spec_group_key(s.last()) == k {
        spec_group_of(s.drop_last(), k).push(s.last())
    } else {
        spec_group_of(s.drop_last(), k)
    }
}

/// What deduplication returns: the representative of each group, one per
/// distinct key, in first-appearance order of the keys.
pub open spec fn spec_dedup(s: Seq<Mount>) -> Seq<Mount> {
    Seq::new(
        spec_distinct_keys(s).len(),
        |i: int|
            {
                let g = spec_group_of(s, spec_distinct_keys(s)[i]);
                g[spec_rep_idx(g)]
            },
    )
}

/// Every member of a group carries the group's key.
pub proof fn lemma_group_members(s: Seq<Mount>, k: GroupKey)
    ensures
        forall|i: int|
            0 <= i < spec_group_of(s, k).len() ==> spec_group_key(
                #[trigger] spec_group_of(s, k)[i],
            ) == k,
    decreases s.len(),
{
    if s.len() > 0 {
        lemma_group_members(s.drop_last(), k);
    }
}

/// A key appears in the key list exactly when its group is inhabited.
pub proof fn lemma_group_inhabited(s: Seq<Mount>, k: GroupKey)
    ensures
        spec_distinct_keys(s).contains(k) <==> spec_group_of(s, k).len() > 0,
    decreases s.len(),
{
    if s.len() == 0 {
    } else {
        lemma_group_inhabited(s.drop_last(), k);
        let rest = spec_distinct_keys(s.drop_last());
        let keys = spec_distinct_keys(s);
        if spec_group_key(s.last()) == k {
            if rest.contains(k) {
                assert(keys.contains(k));
            } else {
                assert(keys == rest.push(k));
                assert(keys[keys.len() - 1] == k);
                assert(keys.contains(k));
            }
        } else {
            if rest.contains(k) {
                let i = choose|i: int| 0 <= i < rest.len() && rest[i] == k;
                if keys == rest.push(spec_group_key(s.last())) {
                    assert(keys[i] == k);
                }
                assert(keys.contains(k));
            } else {
                if keys.contains(k) {
                    let i = choose|i: int| 0 <= i < keys.len() && keys[i] == k;
                    if !rest.contains(spec_group_key(s.last())) {
                        assert(keys == rest.push(spec_group_key(s.last())));
                        assert(i < rest.len());
                        assert(rest[i] == k);
                    }
                    assert(rest.contains(k));
                }
            }
        }
    }
}

/// No key appears twice in the key list.
pub proof fn lemma_keys_distinct(s: Seq<Mount>)
    ensures
        forall|j1: int, j2: int|
            0 <= j1 < j2 < spec_distinct_keys(s).len() ==> #[trigger] spec_distinct_keys(s)[j1]
                != #[trigger] spec_distinct_keys(s)[j2],
    decreases s.len(),
{
    if s.len() > 0 {
        lemma_keys_distinct(s.drop_last());
        let rest = spec_distinct_keys(s.drop_last());
        let keys = spec_distinct_keys(s);
        if !rest.contains(spec_group_key(s.last())) {
            assert forall|j1: int, j2: int|
                0 <= j1 < j2 < keys.len() implies #[trigger] keys[j1] != #[trigger] keys[j2] by {
                if j2 == keys.len() - 1 {
                    assert(keys[j1] == rest[j1]);
                    assert(rest.contains(rest[j1]));
                } else {
                    assert(keys[j1] == rest[j1]);
                    assert(keys[j2] == rest[j2]);
                }
            }
        }
    }
}

/// Every record's key appears in the key list.
pub proof fn lemma_keys_complete(s: Seq<Mount>)
    ensures
        forall|i: int|
            0 <= i < s.len() ==> spec_distinct_keys(s).contains(
                spec_group_key(#[trigger] s[i]),
            ),
    decreases s.len(),
{
    if s.len() > 0 {
        lemma_keys_complete(s.drop_last());
        let rest = spec_distinct_keys(s.drop_last());
        let keys = spec_distinct_keys(s);
        assert forall|i: int|
            0 <= i < s.len() implies keys.contains(spec_group_key(#[trigger] s[i])) by {
            if i < s.len() - 1 {
                assert(s.drop_last()[i] == s[i]);
                assert(rest.contains(spec_group_key(s[i])));
                let j = choose|j: int| 0 <= j < rest.len() && rest[j] == spec_group_key(s[i]);
                assert(keys[j] == spec_group_key(s[i]));
            } else {
                if rest.contains(spec_group_key(s.last())) {
                    let j = choose|j: int|
                        0 <= j < rest.len() && rest[j] == spec_group_key(s.last());
                    assert(keys[j] == spec_group_key(s.last()));
                } else {
                    assert(keys[keys.len() - 1] == spec_group_key(s.last()));
                }
            }
        }
    }
}

/// Each deduplicated row is its group's representative and carries its
/// group's key.
pub proof fn lemma_dedup_rows(s: Seq<Mount>)
    ensures
        spec_dedup(s).len() == spec_distinct_keys(s).len(),
        forall|j: int|
            0 <= j < spec_dedup(s).len() ==> spec_group_key(#[trigger] spec_dedup(s)[j])
                == spec_distinct_keys(s)[j],
    decreases s.len(),
{
    let keys = spec_distinct_keys(s);
    assert forall|j: int|
        0 <= j < spec_dedup(s).len() implies spec_group_key(#[trigger] spec_dedup(s)[j])
        == keys[j] by {
        let g = spec_group_of(s, keys[j]);
        assert(keys.contains(keys[j]));
        lemma_group_inhabited(s, keys[j]);
        lemma_rep_idx_in_range(g);
        lemma_group_members(s, keys[j]);
        assert(spec_dedup(s)[j] == g[spec_rep_idx(g)]);
    }
}

/// The paths of all the records of one group, in order.
pub open spec fn spec_group_paths(g: Seq<Mount>) -> Seq<Seq<char>> {
    Seq::new(g.len(), |i: int| g[i].info.mount_point@)
}

/// The auxiliary path listing deduplication also returns, over the first `n`
/// groups: one entry per group except for a lone cluster row, keyed by the
/// representative's display name and carrying every member path.
pub open spec fn spec_summary_upto(s: Seq<Mount>, n: nat) -> Seq<(Seq<char>, Seq<Seq<char>>)>
    decreases n,
{
    if n == 0 || n > spec_distinct_keys(s).len() {
        Seq::empty()
    } else {
        let prev = spec_summary_upto(s, (n - 1) as nat);
        let k = spec_distinct_keys(s)[n - 1];
        let g = spec_group_of(s, k);
        if g.len() == 1 && k is Cluster {
            prev
        } else {
            prev.push((spec_extract_fsname(g[spec_rep_idx(g)]), spec_group_paths(g)))
        }
    }
}

/// The whole auxiliary path listing.
pub open spec fn spec_summary(s: Seq<Mount>) -> Seq<(Seq<char>, Seq<Seq<char>>)> {
    spec_summary_upto(s, spec_distinct_keys(s).len())
}

/// Pointwise agreement between a built path listing and its model.
pub open spec fn summary_matches(
    v: Seq<(String, Vec<String>)>,
    m: Seq<(Seq<char>, Seq<Seq<char>>)>,
) -> bool {
    &&& v.len() == m.len()
    &&& forall|j: int| 0 <= j < v.len() ==> (#[trigger] v[j]).0@ == m[j].0
    &&& forall|j: int| 0 <= j < v.len() ==> (#[trigger] v[j]).1@.len() == m[j].1.len()
    &&& forall|j: int, l: int|
        0 <= j < v.len() && 0 <= l < m[j].1.len() ==> (#[trigger] v[j].1@[l])@ == m[j].1[l]
}

/// The first bucket whose members share the record's group, if any.
fn find_bucket(buckets: &Vec<Vec<Mount>>, m: &Mount) -> (r: Option<usize>)
    requires
        forall|j: int| 0 <= j < buckets@.len() ==> (#[trigger] buckets@[j])@.len() > 0,
    ensures
        match r {
            Some(j) => j < buckets@.len() && spec_group_key(buckets@[j as int]@[0])
                == spec_group_key(*m),
            None => forall|j: int|
                0 <= j < buckets@.len() ==> spec_group_key((#[trigger] buckets@[j])@[0])
                    != spec_group_key(*m),
        },
{
    let n = buckets.len();
    let mut j: usize = 0;
    while j < n
        invariant
            n == buckets@.len(),
            j <= n,
            forall|l: int| 0 <= l < buckets@.len() ==> (#[trigger] buckets@[l])@.len() > 0,
            forall|l: int|
                0 <= l < j ==> spec_group_key((#[trigger] buckets@[l])@[0]) != spec_group_key(*m),
        decreases n - j,
    {
        let b = &buckets[j];
        if same_group(&b[0], m) {
            return Some(j);
        }
        j = j + 1;
    }
    None
}

/// Collects the mount paths of every record in the group, in order.
fn group_paths(g: &Vec<Mount>) -> (r: Vec<String>)
    ensures
        r@.len() == spec_group_paths(g@).len(),
        forall|l: int| 0 <= l < r@.len() ==> (#[trigger] r@[l])@ == spec_group_paths(g@)[l],
{
    let n = g.len();
    let mut paths: Vec<String> = Vec::new();
    let mut i: usize = 0;
    while i < n
        invariant
            n == g@.len(),
            i <= n,
            paths@.len() == i,
            forall|l: int| 0 <= l < i ==> (#[trigger] paths@[l])@ == spec_group_paths(g@)[l],
        decreases n - i,
    {
        paths.push(g[i].info.mount_point.clone());
        i = i + 1;
    }
    paths
}

/// Deduplicates the record list: groups rows by their identity key, keeps
/// one representative per group, and also returns, per display name, the
/// paths every collapsed group was reachable through. Cluster rows group by
/// name and path together, so each target row and the aggregate survive.
pub fn check_duplicate(mounts: Vec<Mount>) -> (r: (Vec<Mount>, Vec<(String, Vec<String>)>))
    ensures
        r.0@ == spec_dedup(mounts@),
        summary_matches(r.1@, spec_summary(mounts@)),
{
    let ghost input = mounts@;
    let mut rest = mounts;
    let mut buckets: Vec<Vec<Mount>> = Vec::new();
    let ghost mut processed: Seq<Mount> = Seq::empty();
    proof {
        assert(input =~= processed + rest@);
    }
    while rest.len() > 0
        invariant
            input == processed + rest@,
            buckets@.len() == spec_distinct_keys(processed).len(),
            forall|j: int| 0 <= j < buckets@.len() ==> (#[trigger] buckets@[j])@.len() > 0,
            forall|j: int|
                0 <= j < buckets@.len() ==> (#[trigger] buckets@[j])@ == spec_group_of(
                    processed,
                    spec_distinct_keys(processed)[j],
                ),
            forall|j: int|
                0 <= j < buckets@.len() ==> spec_group_key((#[trigger] buckets@[j])@[0])
                    == spec_distinct_keys(processed)[j],
        decreases rest@.len(),
    {
        let ghost old_rest = rest@;
        let ghost old_processed = processed;
        let ghost old_buckets = buckets@;
        let m = rest.remove(0);
        let ghost gm = m;
        proof {
            processed = processed.push(gm);
            assert(input =~= processed + rest@);
            assert(processed.drop_last() =~= old_processed);
            assert(processed.last() == gm);
            lemma_keys_distinct(old_processed);
        }
        match find_bucket(&buckets, &m) {
            Some(bi) => {
                proof {
                    assert(spec_distinct_keys(old_processed)[bi as int] == spec_group_key(gm));
                    assert(spec_distinct_keys(old_processed).contains(spec_group_key(gm)));
                    assert(spec_distinct_keys(processed) == spec_distinct_keys(old_processed));
                }
                let mut bucket = buckets.remove(bi);
                bucket.push(m);
                buckets.insert(bi, bucket);
                proof {
                    assert(buckets@ =~= old_buckets.update(
                        bi as int,
                        buckets@[bi as int],
                    ));
                    assert(buckets@[bi as int]@ =~= old_buckets[bi as int]@.push(gm));
                    assert forall|j: int|
                        0 <= j < buckets@.len() implies (#[trigger] buckets@[j])@
                        == spec_group_of(processed, spec_distinct_keys(processed)[j]) by {
                        if j == bi {
                        } else {
                            assert(buckets@[j] == old_buckets[j]);
                            assert(spec_distinct_keys(processed)[j] != spec_group_key(gm));
                        }
                    }
                }
            },
            None => {
                proof {
                    assert forall|j: int|
                        0 <= j < spec_distinct_keys(old_processed).len()
                        implies #[trigger] spec_distinct_keys(old_processed)[j]
                        != spec_group_key(gm) by {
                        assert(spec_group_key(old_buckets[j]@[0]) != spec_group_key(gm));
                    }
                    assert(!spec_distinct_keys(old_processed).contains(spec_group_key(gm)));
                    assert(spec_distinct_keys(processed) == spec_distinct_keys(
                        old_processed,
                    ).push(spec_group_key(gm)));
                    lemma_group_inhabited(old_processed, spec_group_key(gm));
                    assert(spec_group_of(old_processed, spec_group_key(gm))
                        =~= Seq::<Mount>::empty());
                }
                let mut nbv: Vec<Mount> = Vec::new();
                nbv.push(m);
                buckets.push(nbv);
                proof {
                    assert(buckets@[buckets@.len() - 1]@ =~= Seq::<Mount>::empty().push(gm));
                    assert forall|j: int|
                        0 <= j < buckets@.len() implies (#[trigger] buckets@[j])@
                        == spec_group_of(processed, spec_distinct_keys(processed)[j]) by {
                        if j < buckets@.len() - 1 {
                            assert(buckets@[j] == old_buckets[j]);
                            assert(spec_distinct_keys(processed)[j] == spec_distinct_keys(
                                old_processed,
                            )[j]);
                            assert(spec_distinct_keys(old_processed)[j] != spec_group_key(gm));
                        }
                    }
                }
            },
        }
    }
    proof {
        assert(processed =~= input);
    }
    let ghost keys = spec_distinct_keys(input);
    let mut out: Vec<Mount> = Vec::new();
    let mut summary: Vec<(String, Vec<String>)> = Vec::new();
    let ghost mut done: int = 0;
    while buckets.len() > 0
        invariant
            0 <= done <= keys.len(),
            keys == spec_distinct_keys(input),
            buckets@.len() == keys.len() - done,
            forall|j: int| 0 <= j < buckets@.len() ==> (#[trigger] buckets@[j])@.len() > 0,
            forall|j: int|
                0 <= j < buckets@.len() ==> (#[trigger] buckets@[j])@ == spec_group_of(
                    input,
                    keys[done + j],
                ),
            out@ =~= spec_dedup(input).subrange(0, done),
            summary_matches(summary@, spec_summary_upto(input, done as nat)),
        decreases buckets@.len(),
    {
        let ghost old_buckets = buckets@;
        let ghost old_summary = summary@;
        let g = buckets.remove(0);
        let ghost gv = g@;
        proof {
            assert(gv == spec_group_of(input, keys[done]));
            lemma_group_members(input, keys[done]);
            assert(spec_group_key(gv[0]) == keys[done]);
        }
        let paths = group_paths(&g);
        let single_cluster = g.len() == 1 && str_eq(g[0].info.fs_type.as_str(), "lustre");
        proof {
            assert(single_cluster == (gv.len() == 1 && keys[done] is Cluster));
        }
        let rep = choose_representative_mount(g);
        let fs_name = extract_fsname(&rep);
        out.push(rep);
        if !single_cluster {
            summary.push((fs_name, paths));
        }
        proof {
            done = done + 1;
            assert(spec_dedup(input)[done - 1] == gv[spec_rep_idx(gv)]);
            assert(out@ =~= spec_dedup(input).subrange(0, done));
            assert(spec_summary_upto(input, done as nat) == if gv.len() == 1 && keys[done - 1]
                is Cluster {
                spec_summary_upto(input, (done - 1) as nat)
            } else {
                spec_summary_upto(input, (done - 1) as nat).push(
                    (spec_extract_fsname(gv[spec_rep_idx(gv)]), spec_group_paths(gv)),
                )
            });
        }
    }
    proof {
        assert(out@ =~= spec_dedup(input));
        assert(spec_summary_upto(input, keys.len()) == spec_summary(input));
    }
    (out, summary)
}

/// For a group of ordinary records sharing a device identity, deduplication
/// yields exactly one representative, taken from the group; its path is the
/// root path when the group holds one, else one of the shortest paths.
pub proof fn law_dedup_one_ordinary_representative(s: Seq<Mount>, k: GroupKey)
    requires
        k is Device,
        spec_group_of(s, k).len() > 0,
        forall|i: int|
            0 <= i < spec_group_of(s, k).len() ==> (#[trigger] spec_group_of(s, k)[i]).kind
                != MountKind::ClusterAggregate,
    ensures
        exists|j: int|
            0 <= j < spec_dedup(s).len() && spec_group_key(#[trigger] spec_dedup(s)[j]) == k,
        forall|j1: int, j2: int|
            (0 <= j1 < spec_dedup(s).len() && 0 <= j2 < spec_dedup(s).len() && spec_group_key(
                #[trigger] spec_dedup(s)[j1],
            ) == k && spec_group_key(#[trigger] spec_dedup(s)[j2]) == k) ==> j1 == j2,
        forall|j: int|
            (0 <= j < spec_dedup(s).len() && spec_group_key(#[trigger] spec_dedup(s)[j]) == k)
                ==> {
                let g = spec_group_of(s, k);
                &&& exists|i: int| 0 <= i < g.len() && spec_dedup(s)[j] == g[i]
                &&& ((exists|i: int| 0 <= i < g.len() && (#[trigger] g[i]).info.mount_point@
                    == "/"@) ==> spec_dedup(s)[j].info.mount_point@ == "/"@)
                &&& ((forall|i: int|
                    0 <= i < g.len() ==> (#[trigger] g[i]).info.mount_point@ != "/"@) ==> forall|
                    i: int,
                |
                    0 <= i < g.len() ==> spec_dedup(s)[j].info.mount_point@.len() <= (
                    #[trigger] g[i]).info.mount_point@.len())
            },
{
    let keys = spec_distinct_keys(s);
    let g = spec_group_of(s, k);
    lemma_group_inhabited(s, k);
    lemma_keys_distinct(s);
    lemma_dedup_rows(s);
    lemma_rep_idx_in_range(g);
    let jk = choose|jk: int| 0 <= jk < keys.len() && keys[jk] == k;
    assert(spec_group_key(spec_dedup(s)[jk]) == k);
    assert forall|j1: int, j2: int|
        (0 <= j1 < spec_dedup(s).len() && 0 <= j2 < spec_dedup(s).len() && spec_group_key(
            #[trigger] spec_dedup(s)[j1],
        ) == k && spec_group_key(#[trigger] spec_dedup(s)[j2]) == k) implies j1 == j2 by {
        assert(keys[j1] == k);
        assert(keys[j2] == k);
    }
    lemma_first_aggregate_in_range(g, 0);
    assert(spec_first_aggregate_from(g, 0) is None);
    let rep = spec_rep_idx(g);
    lemma_best_path_idx_in_range(g, g.len());
    assert forall|j: int|
        (0 <= j < spec_dedup(s).len() && spec_group_key(#[trigger] spec_dedup(s)[j]) == k)
        implies {
        &&& exists|i: int| 0 <= i < g.len() && spec_dedup(s)[j] == g[i]
        &&& ((exists|i: int| 0 <= i < g.len() && (#[trigger] g[i]).info.mount_point@ == "/"@)
            ==> spec_dedup(s)[j].info.mount_point@ == "/"@)
        &&& ((forall|i: int|
            0 <= i < g.len() ==> (#[trigger] g[i]).info.mount_point@ != "/"@) ==> forall|i: int|
            0 <= i < g.len() ==> spec_dedup(s)[j].info.mount_point@.len() <= (
            #[trigger] g[i]).info.mount_point@.len())
    } by {
        assert(keys[j] == k);
        assert(spec_dedup(s)[j] == g[rep]);
        assert(0 <= rep < g.len() && spec_dedup(s)[j] == g[rep]);
        if exists|i: int| 0 <= i < g.len() && (#[trigger] g[i]).info.mount_point@ == "/"@ {
            let i = choose|i: int|
                0 <= i < g.len() && (#[trigger] g[i]).info.mount_point@ == "/"@;
            if g[rep].info.mount_point@ != "/"@ {
                assert(spec_path_better(g[i].info.mount_point@, g[rep].info.mount_point@));
                assert(false);
            }
        }
        if forall|i: int| 0 <= i < g.len() ==> (#[trigger] g[i]).info.mount_point@ != "/"@ {
            assert forall|i: int|
                0 <= i < g.len() implies g[rep].info.mount_point@.len() <= (
            #[trigger] g[i]).info.mount_point@.len() by {
                assert(!spec_path_better(g[i].info.mount_point@, g[rep].info.mount_point@));
                assert(g[i].info.mount_point@ != "/"@);
                assert(g[rep].info.mount_point@ != "/"@);
            }
        }
    }
}

/// Deduplication never merges two distinct cluster rows: two cluster records
/// differing in name or path each keep a row of their own, even when they
/// share a filesystem name.
pub proof fn law_dedup_keeps_cluster_rows(s: Seq<Mount>, i1: int, i2: int)
    requires
        0 <= i1 < s.len(),
        0 <= i2 < s.len(),
        s[i1].info.fs_type@ == "lustre"@,
        s[i2].info.fs_type@ == "lustre"@,
        s[i1].info.fs@ != s[i2].info.fs@ || s[i1].info.mount_point@ != s[i2].info.mount_point@,
    ensures
        exists|j1: int, j2: int|
            {
                &&& 0 <= j1 < spec_dedup(s).len()
                &&& 0 <= j2 < spec_dedup(s).len()
                &&& j1 != j2
                &&& spec_group_key(#[trigger] spec_dedup(s)[j1]) == spec_group_key(s[i1])
                &&& spec_group_key(#[trigger] spec_dedup(s)[j2]) == spec_group_key(s[i2])
            },
{
    let keys = spec_distinct_keys(s);
    lemma_keys_complete(s);
    lemma_dedup_rows(s);
    let k1 = spec_group_key(s[i1]);
    let k2 = spec_group_key(s[i2]);
    assert(k1 != k2);
    assert(keys.contains(k1));
    assert(keys.contains(k2));
    let j1 = choose|j: int| 0 <= j < keys.len() && keys[j] == k1;
    let j2 = choose|j: int| 0 <= j < keys.len() && keys[j] == k2;
    assert(spec_group_key(spec_dedup(s)[j1]) == k1);
    assert(spec_group_key(spec_dedup(s)[j2]) == k2);
    assert(j1 != j2);
}

/// Where a discovered aggregate record lands among the catalog rows: it
/// replaces the catalog's cluster row at the same mount point, or is
/// appended when the catalog has none.
pub open spec fn spec_find_client_pos(mounts: Seq<Mount>, mp: Seq<char>, i: nat) -> Option<int>
    decreases mounts.len() - i,
{
    if i >= mounts.len() {
        None
    } else if mounts[i as int].info.fs_type@ == "lustre"@ && mounts[i as int].info.mount_point@
        == mp {
        Some(i as int)
    } else {
        spec_find_client_pos(mounts, mp, i + 1)
    }
}

/// One discovery record folded into the catalog: a component row leaves the
/// catalog as it is; a client row replaces the catalog's cluster row at the
/// same mount point, or is appended.
pub open spec fn spec_replace_one(mounts: Seq<Mount>, lm: Mount) -> Seq<Mount> {
    if crate::lustre::spec_is_lustre_component_mount(lm) {
        mounts
    } else {
        match spec_find_client_pos(mounts, lm.info.mount_point@, 0) {
            Some(p) => mounts.update(p, lm),
            None => mounts.push(lm),
        }
    }
}

/// All the discovery records folded into the catalog, in order.
pub open spec fn spec_replace_clients(mounts: Seq<Mount>, lm: Seq<Mount>) -> Seq<Mount>
    decreases lm.len(),
{
    if lm.len() == 0 {
        mounts
    } else {
        spec_replace_clients(spec_replace_one(mounts, lm[0]), lm.skip(1))
    }
}

/// The position of the catalog's cluster row at the given mount point.
fn find_client_pos(mounts: &Vec<Mount>, mp: &str) -> (r: Option<usize>)
    ensures
        match r {
            Some(p) => p < mounts@.len() && spec_find_client_pos(mounts@, mp@, 0) == Some(
                p as int,
            ),
            None => spec_find_client_pos(mounts@, mp@, 0) is None,
        },
{
    let n = mounts.len();
    let mut i: usize = 0;
    while i < n
        invariant
            n == mounts@.len(),
            i <= n,
            spec_find_client_pos(mounts@, mp@, 0) == spec_find_client_pos(mounts@, mp@, i as nat),
        decreases n - i,
    {
        let m = &mounts[i];
        if str_eq(m.info.fs_type.as_str(), "lustre") && str_eq(m.info.mount_point.as_str(), mp) {
            return Some(i);
        }
        i = i + 1;
    }
    None
}

/// Replaces the catalog's cluster client rows with the discovered aggregate
/// records, which carry better figures; an aggregate without a catalog
/// counterpart is appended, and component records are left for the caller to
/// add.
pub fn replace_lustre_client_mounts(mounts: &mut Vec<Mount>, lustre_mounts: Vec<Mount>)
    ensures
        final(mounts)@ == spec_replace_clients(old(mounts)@, lustre_mounts@),
{
    let mut rest = lustre_mounts;
    let ghost all = rest@;
    while rest.len() > 0
        invariant
            spec_replace_clients(mounts@, rest@) == spec_replace_clients(old(mounts)@, all),
        decreases rest@.len(),
    {
        let ghost old_rest = rest@;
        let lm = rest.remove(0);
        let ghost glm = lm;
        proof {
            assert(old_rest[0] == glm);
            assert(old_rest.skip(1) =~= rest@);
        }
        if !crate::lustre::is_lustre_component_mount(&lm) {
            let ghost before = mounts@;
            match find_client_pos(mounts, lm.info.mount_point.as_str()) {
                Some(p) => {
                    mounts.remove(p);
                    mounts.insert(p, lm);
                    proof {
                        assert(mounts@ =~= before.update(p as int, glm));
                    }
                },
                None => {
                    mounts.push(lm);
                },
            }
            proof {
                assert(mounts@ == spec_replace_one(before, glm));
            }
        } else {
            proof {
                assert(mounts@ == spec_replace_one(mounts@, glm));
            }
        }
    }
    proof {
        assert(spec_replace_clients(mounts@, rest@) == mounts@);
    }
}

} // verus!
