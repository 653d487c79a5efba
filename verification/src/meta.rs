//! The side table of cluster-specific metadata, keyed by mount path. It is
//! filled once while discovery runs and only read afterwards, by the column
//! comparators and the render stage.

use vstd::prelude::*;
use crate::strings::str_eq;

verus! {

/// Cluster-specific information attached to one mount path: data layout
/// parameters and the identity of the backend component the row stands for.
#[derive(Debug)]
pub struct LustreInfo {
    /// number of object targets file data is striped across
    pub stripe_count: Option<u64>,
    /// size of each stripe in bytes
    pub stripe_size: Option<u64>,
    /// version of the cluster software
    pub lustre_version: Option<String>,
    /// object-target pool the path is restricted to
    pub pool_name: Option<String>,
    /// component family tag of the row
    pub component_type: Option<String>,
    /// index of the component within its family
    pub component_index: Option<u32>,
    /// number of file mirrors
    pub mirror_count: Option<u16>,
}

impl LustreInfo {
    pub fn new() -> (r: Self)
        ensures
            r.stripe_count is None,
            r.stripe_size is None,
            r.lustre_version is None,
            r.pool_name is None,
            r.component_type is None,
            r.component_index is None,
            r.mirror_count is None,
    {
        Self {
            stripe_count: None,
            stripe_size: None,
            lustre_version: None,
            pool_name: None,
            component_type: None,
            component_index: None,
            mirror_count: None,
        }
    }
}

fn clone_opt_string(o: &Option<String>) -> (r: Option<String>)
    ensures
        r == *o,
{
    match o {
        Some(s) => Some(s.clone()),
        None => None,
    }
}

impl Clone for LustreInfo {
    fn clone(&self) -> (r: Self)
        ensures
            r == *self,
    {
        Self {
            stripe_count: self.stripe_count,
            stripe_size: self.stripe_size,
            lustre_version: clone_opt_string(&self.lustre_version),
            pool_name: clone_opt_string(&self.pool_name),
            component_type: clone_opt_string(&self.component_type),
            component_index: self.component_index,
            mirror_count: self.mirror_count,
        }
    }
}

/// The per-invocation table mapping a mount path to its cluster metadata.
#[derive(Debug)]
pub struct LustreInfoTable {
    entries: Vec<(String, LustreInfo)>,
}

/// The map an entry list denotes: a later entry for the same path wins.
pub open spec fn table_map(entries: Seq<(String, LustreInfo)>) -> Map<Seq<char>, LustreInfo>
    decreases entries.len(),
{
    if entries.len() == 0 {
        Map::empty()
    } else {
        table_map(entries.drop_last()).insert(entries.last().0@, entries.last().1)
    }
}

impl View for LustreInfoTable {
    type V = Map<Seq<char>, LustreInfo>;

    closed spec fn view(&self) -> Map<Seq<char>, LustreInfo> {
        table_map(self.entries@)
    }
}

impl LustreInfoTable {
    pub fn new() -> (r: Self)
        ensures
            r@ == Map::<Seq<char>, LustreInfo>::empty(),
    {
        Self { entries: Vec::new() }
    }
}

/// Get the cluster metadata recorded for a mount point.
pub fn get_lustre_info(table: &LustreInfoTable, mount_point: &str) -> (r: Option<LustreInfo>)
    ensures
        match r {
            Some(info) => table@.contains_key(mount_point@) && table@[mount_point@] == info,
            None => !table@.contains_key(mount_point@),
        },
{
    let mut i: usize = table.entries.len();
    proof {
        assert(table.entries@.subrange(0, table.entries@.len() as int) =~= table.entries@);
    }
    while i > 0
        invariant
            i <= table.entries.len(),
            table@ == table_map(table.entries@),
            table@.contains_key(mount_point@) == table_map(
                table.entries@.subrange(0, i as int),
            ).contains_key(mount_point@),
            table@.contains_key(mount_point@) ==> table@[mount_point@] == table_map(
                table.entries@.subrange(0, i as int),
            )[mount_point@],
        decreases i,
    {
        proof {
            assert(table.entries@.subrange(0, i as int).drop_last() =~= table.entries@.subrange(
                0,
                i - 1,
            ));
            assert(table.entries@.subrange(0, i as int).last() == table.entries@[i - 1]);
        }
        if str_eq(table.entries[i - 1].0.as_str(), mount_point) {
            return Some(table.entries[i - 1].1.clone());
        }
        i = i - 1;
    }
    proof {
        assert(table.entries@.subrange(0, 0) =~= Seq::<(String, LustreInfo)>::empty());
    }
    None
}

/// Record the cluster metadata of a mount point, replacing what an earlier
/// record for the same path said.
pub fn set_lustre_info(table: &mut LustreInfoTable, mount_point: String, info: LustreInfo)
    ensures
        final(table)@ == old(table)@.insert(mount_point@, info),
{
    let ghost old_entries = table.entries@;
    let ghost key = mount_point@;
    let ghost ginfo = info;
    table.entries.push((mount_point, info));
    proof {
        assert(table.entries@.drop_last() =~= old_entries);
        assert(table.entries@.last() == (table.entries@[old_entries.len() as int]));
    }
}

} // verus!
