//! The classification gate deciding which mounts are listed without an
//! explicit show-all flag.

use vstd::prelude::*;
use crate::mount::Mount;
use crate::strings::str_eq;

verus! {

/// Whether the mounted filesystem is "normal", meaning it is listed in
/// standard mode (without the show-all flag). A cluster-managed row always
/// is; any other row must have usable figures or an explicit unreachable
/// marker, sit on a physical disk or be remote or of an always-shown virtual
/// type, not be a bound mount, and not be of the excluded bundle type.
pub open spec fn spec_is_normal(m: Mount) -> bool {
    if m.info.fs_type@ == "lustre"@ {
        true
    } else {
        &&& (m.spec_stats() is Some || m.spec_is_unreachable())
        &&& (m.disk is Some || m.info.fs_type@ == "zfs"@ || m.info.spec_is_remote())
        &&& !m.info.bound
        &&& m.info.fs_type@ != "squashfs"@
    }
}

pub fn is_normal(m: &Mount) -> (r: bool)
    ensures
        r == spec_is_normal(*m),
{
    if str_eq(m.info.fs_type.as_str(), "lustre") {
        return true;
    }
    (m.stats().is_some() || m.is_unreachable()) && (m.disk.is_some() || str_eq(
        m.info.fs_type.as_str(),
        "zfs",
    ) || m.info.is_remote()) && !m.info.bound && !str_eq(m.info.fs_type.as_str(), "squashfs")
}

/// A record with neither usage figures nor an unreachable marker, and not
/// flagged as a bound mount, is listed by default only on one of the
/// accepted grounds — here necessarily because it is cluster-managed — and
/// never when its type is the excluded bundle type.
pub proof fn law_no_stats_listing_needs_grounds(m: Mount)
    requires
        m.spec_stats() is None,
        !m.spec_is_unreachable(),
        !m.info.bound,
    ensures
        spec_is_normal(m) ==> {
            &&& (m.info.fs_type@ == "lustre"@ || m.info.spec_is_remote() || m.disk is Some
                || m.info.fs_type@ == "zfs"@)
            &&& !m.info.bound
            &&& m.info.fs_type@ != "squashfs"@
        },
{
    if spec_is_normal(m) {
        assert(m.info.fs_type@ == "lustre"@);
        reveal_strlit("lustre");
        reveal_strlit("squashfs");
        assert(m.info.fs_type@.len() == 6);
        assert(m.info.fs_type@ != "squashfs"@);
    }
}

} // verus!
