//! The database helper's own records.

use vstd::prelude::*;

verus! {

/// Counts of the known migrations that are not in a usable state.
#[derive(Clone, Copy, PartialEq, Eq, Structural, Debug, Default)]
pub struct MigrationError {
    pub wrong_checksum: usize,
    pub unapplied: usize,
}

impl MigrationError {
    /// Whether anything is wrong at all.
    pub fn any(&self) -> (r: bool)
        ensures
            r == (self.wrong_checksum + self.unapplied > 0),
    {
        self.wrong_checksum > 0 || self.unapplied > 0
    }
}

/// A helper struct for setting up data in tests: a user with a write
/// token, a manage token and a login session.
#[derive(Clone, Debug)]
pub struct TestUser {
    pub name: String,
    pub write_token: String,
    pub manage_token: String,
    pub session_id: String,
}

/// A delete by id found its row exactly when it affected one row.
pub fn deleted_one(rows_affected: u64) -> (r: Option<()>)
    ensures
        r is Some <==> rows_affected == 1,
{
    if rows_affected == 1 {
        Some(())
    } else {
        None
    }
}

} // verus!
