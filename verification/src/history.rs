//! The decisions around the history of uploads; the store itself is the
//! caller's.

use vstd::prelude::*;

verus! {

/// The version of the schema that the store is brought to.
pub const SCHEMA_VERSION: i32 = 1;

/// One step of bringing a store to the current schema.
#[derive(Clone, Copy, Debug, PartialEq, Eq, Structural)]
pub enum MigrationStep {
    /// Create the table of uploads, unless it is there.
    CreateUploads,
    /// Create the index on the video identifiers, unless it is there.
    CreateIndex,
    /// Copy the identifier that the old table holds, if it holds one.
    CopyOldUpload,
    /// Drop the old table.
    DropOldTable,
    /// Record the version of the schema.
    SetVersion(i32),
}

/// The steps that bring a store to the current schema, with or without a
/// table of the old schema in it.
pub open spec fn migration_of(old_table_exists: bool) -> Seq<MigrationStep> {
    if old_table_exists {
        seq![
            MigrationStep::CreateUploads,
            MigrationStep::CreateIndex,
            MigrationStep::CopyOldUpload,
            MigrationStep::DropOldTable,
            MigrationStep::SetVersion(SCHEMA_VERSION),
        ]
    } else {
        seq![
            MigrationStep::CreateUploads,
            MigrationStep::CreateIndex,
            MigrationStep::SetVersion(SCHEMA_VERSION),
        ]
    }
}

/// Whether a store that reports `current_version` has to be migrated: only
/// one without a version, which reports 0.
pub fn needs_migration(current_version: i32) -> (out: bool)
    ensures
        out == (current_version == 0),
{
    current_version == 0
}

/// The steps that bring a store to the current schema.
pub fn migration_steps(old_table_exists: bool) -> (out: Vec<MigrationStep>)
    ensures
        out@ == migration_of(old_table_exists),
{
    let mut out: Vec<MigrationStep> = Vec::new();
    out.push(MigrationStep::CreateUploads);
    out.push(MigrationStep::CreateIndex);
    if old_table_exists {
        out.push(MigrationStep::CopyOldUpload);
        out.push(MigrationStep::DropOldTable);
    }
    out.push(MigrationStep::SetVersion(SCHEMA_VERSION));
    assert(out@ =~= migration_of(old_table_exists));
    out
}

/// The identifier that was processed last: the one of the newest record, or
/// the empty text while there is no record.
pub fn last_id_or_empty(newest: Option<String>) -> (out: String)
    ensures
        out@ == (match newest {
            Some(id) => id@,
            None => Seq::<char>::empty(),
        }),
{
    match newest {
        Some(id) => id,
        None => String::new(),
    }
}

/// Whether a video was uploaded before, from the number of its records.
pub fn was_uploaded(records: i64) -> (out: bool)
    ensures
        out == (records > 0),
{
    records > 0
}

} // verus!
