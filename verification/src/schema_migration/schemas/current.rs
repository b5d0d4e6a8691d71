use vstd::prelude::*;

use crate::schema_migration::helpers::{table_specs, ADbTable, TableSpec};
use crate::schema_migration::schema_versions::{SchemaVersion, CURRENT_VERSION};
use crate::schema_migration::schemas::version0::{self, version0_spec};

verus! {

/// The tables of the current version.
pub fn entire_table() -> (r: Vec<ADbTable>)
    ensures
        table_specs(r@) == version0_spec(),
{
    match CURRENT_VERSION {
        SchemaVersion::Version0 => version0::entire_table(),
    }
}

} // verus!
