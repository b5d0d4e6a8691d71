use vstd::prelude::*;

verus! {

/// The versions the schema has had, oldest first.
#[derive(PartialEq, Eq, Structural, Clone, Copy, Debug)]
pub enum SchemaVersion {
    Version0,
}

/// The version a fresh database is created at.
pub const CURRENT_VERSION: SchemaVersion = SchemaVersion::Version0;

/// How many updates lie between `v` and the current version.
pub open spec fn updates_to_go(v: SchemaVersion) -> nat {
    match v {
        SchemaVersion::Version0 => 0,
    }
}

} // verus!
