use vstd::prelude::*;

use crate::db::safety_first::LiveForever;
use crate::schema_migration::schema_versions::{updates_to_go, SchemaVersion, CURRENT_VERSION};

verus! {

/// One update step: the version after `current` (the current version
/// stays where it is).
pub fn update_once(current: SchemaVersion, _db_wrapper: &LiveForever) -> (r: SchemaVersion)
    ensures
        r == current || updates_to_go(r) < updates_to_go(current),
        r == current <==> updates_to_go(current) == 0,
{
    match current {
        SchemaVersion::Version0 => SchemaVersion::Version0,
    }
}

/// Updates from `current` until nothing changes; ends at the current version.
pub fn update_until_newest_version(current: SchemaVersion, db_wrapper: &LiveForever) -> (r: SchemaVersion)
    ensures
        r == CURRENT_VERSION,
{
    let mut current = current;
    loop
        invariant_except_break
            true,
        ensures
            updates_to_go(current) == 0,
            current == CURRENT_VERSION,
        decreases updates_to_go(current),
    {
        let next = update_once(current, db_wrapper);
        if next == current {
            break;
        }
        current = next;
    }
    current
}

} // verus!
