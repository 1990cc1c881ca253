//! Checking the database's applied migrations against the migrations this
//! build of the app knows about.

use vstd::prelude::*;

verus! {

/// Counts of the known migrations that are not in a usable state.
#[derive(Clone, Copy, PartialEq, Eq, Structural, Debug, Default)]
pub struct MigrationError {
    pub wrong_checksum: usize,
    pub unapplied: usize,
}

impl MigrationError {
    /// Whether anything is wrong at all.
    pub fn any(&self) -> (r: bool)
        ensures
            r == (self.wrong_checksum + self.unapplied > 0),
    {
        self.wrong_checksum > 0 || self.unapplied > 0
    }
}

/// A migration that ships with the app.
#[derive(Clone, Debug)]
pub struct KnownMigration {
    pub version: i64,
    pub checksum: Vec<u8>,
    /// Down (revert) migrations are not expected to be applied.
    pub is_down: bool,
}

/// A migration that the database records as applied.
#[derive(Clone, Debug)]
pub struct AppliedMigration {
    pub version: i64,
    pub checksum: Vec<u8>,
}

/// The outcome of comparing known and applied migrations.
#[derive(Clone, Copy, PartialEq, Eq, Structural, Debug)]
pub struct MigrationTally {
    pub errors: MigrationError,
    /// Applied versions that this build doesn't know (an older app version?).
    pub unrecognized: usize,
    /// The number of known up migrations.
    pub total_known: usize,
}

/// Whether the database records version `v` as applied.
pub open spec fn applied_has(applied: Seq<AppliedMigration>, v: i64) -> bool {
    exists|i: int| 0 <= i < applied.len() && #[trigger] applied[i].version == v
}

/// The checksum recorded for version `v`: that of its last record.
pub open spec fn applied_checksum(applied: Seq<AppliedMigration>, v: i64) -> Seq<u8>
    decreases applied.len(),
{
    if applied.len() == 0 {
        Seq::empty()
    } else if applied.last().version == v {
        applied.last().checksum@
    } else {
        applied_checksum(applied.drop_last(), v)
    }
}

/// Whether an earlier known up migration has the same version as the `j`th.
pub open spec fn seen_before(known: Seq<KnownMigration>, j: int) -> bool {
    exists|i: int| 0 <= i < j && !known[i].is_down && #[trigger] known[i].version == known[j].version
}

/// Whether the `j`th known migration is an up migration that finds its
/// applied record (each applied version is matched at most once).
pub open spec fn found_at(known: Seq<KnownMigration>, applied: Seq<AppliedMigration>, j: int) -> bool {
    !known[j].is_down && applied_has(applied, known[j].version) && !seen_before(known, j)
}

/// Among the first `n` known migrations, those applied with another checksum.
pub open spec fn count_wrong(known: Seq<KnownMigration>, applied: Seq<AppliedMigration>, n: int) -> nat
    decreases n,
{
    if n <= 0 {
        0
    } else {
        count_wrong(known, applied, n - 1) + if found_at(known, applied, n - 1)
            && applied_checksum(applied, known[n - 1].version) != known[n - 1].checksum@ {
            1nat
        } else {
            0nat
        }
    }
}

/// Among the first `n` known migrations, the up migrations not applied.
pub open spec fn count_unapplied(
    known: Seq<KnownMigration>,
    applied: Seq<AppliedMigration>,
    n: int,
) -> nat
    decreases n,
{
    if n <= 0 {
        0
    } else {
        count_unapplied(known, applied, n - 1) + if !known[n - 1].is_down && !found_at(
            known,
            applied,
            n - 1,
        ) {
            1nat
        } else {
            0nat
        }
    }
}

/// Among the first `n` known migrations, the up migrations.
pub open spec fn count_up(known: Seq<KnownMigration>, n: int) -> nat
    decreases n,
{
    if n <= 0 {
        0
    } else {
        count_up(known, n - 1) + if !known[n - 1].is_down {
            1nat
        } else {
            0nat
        }
    }
}

/// Whether some known up migration has version `v`.
pub open spec fn known_up_has(known: Seq<KnownMigration>, v: i64) -> bool {
    exists|i: int| 0 <= i < known.len() && !known[i].is_down && #[trigger] known[i].version == v
}

/// Whether the `i`th applied record is the last one of its version.
pub open spec fn last_of_version(applied: Seq<AppliedMigration>, i: int) -> bool {
    forall|k: int| i < k < applied.len() ==> #[trigger] applied[k].version != applied[i].version
}

/// Among the first `n` applied records, the distinct versions that no known
/// up migration has.
pub open spec fn count_unrecognized(
    known: Seq<KnownMigration>,
    applied: Seq<AppliedMigration>,
    n: int,
) -> nat
    decreases n,
{
    if n <= 0 {
        0
    } else {
        count_unrecognized(known, applied, n - 1) + if last_of_version(applied, n - 1)
            && !known_up_has(known, applied[n - 1].version) {
            1nat
        } else {
            0nat
        }
    }
}

/// The tally of known against applied migrations.
pub open spec fn tally_spec(known: Seq<KnownMigration>, applied: Seq<AppliedMigration>) -> (nat, nat, nat, nat) {
    (
        count_wrong(known, applied, known.len() as int),
        count_unapplied(known, applied, known.len() as int),
        count_unrecognized(known, applied, applied.len() as int),
        count_up(known, known.len() as int),
    )
}

fn bytes_eq(a: &Vec<u8>, b: &Vec<u8>) -> (r: bool)
    ensures
        r == (a@ == b@),
{
    if a.len() != b.len() {
        return false;
    }
    let mut i: usize = 0;
    while i < a.len()
        invariant
            a@.len() == b@.len(),
            i <= a@.len(),
            forall|k: int| 0 <= k < i ==> a@[k] == b@[k],
        decreases a@.len() - i,
    {
        if a[i] != b[i] {
            return false;
        }
        i = i + 1;
    }
    assert(a@ =~= b@);
    true
}

fn find_applied(applied: &Vec<AppliedMigration>, v: i64) -> (r: Option<usize>)
    ensures
        r is None <==> !applied_has(applied@, v),
        r matches Some(i) ==> i < applied@.len() && applied@[i as int].checksum@ == applied_checksum(
            applied@,
            v,
        ),
{
    let mut n = applied.len();
    assert(applied@.subrange(0, n as int) =~= applied@);
    while n > 0
        invariant
            n <= applied@.len(),
            forall|k: int| n <= k < applied@.len() ==> #[trigger] applied@[k].version != v,
            applied_checksum(applied@, v) == applied_checksum(applied@.subrange(0, n as int), v),
        decreases n,
    {
        let ghost prefix = applied@.subrange(0, n as int);
        assert(prefix.drop_last() =~= applied@.subrange(0, n - 1));
        if applied[n - 1].version == v {
            return Some(n - 1);
        }
        n = n - 1;
    }
    None
}

fn up_version_before(known: &Vec<KnownMigration>, j: usize) -> (r: bool)
    requires
        j < known@.len(),
    ensures
        r == seen_before(known@, j as int),
{
    let mut i: usize = 0;
    while i < j
        invariant
            j < known@.len(),
            i <= j,
            forall|k: int| 0 <= k < i ==> !(!known@[k].is_down && #[trigger] known@[k].version
                == known@[j as int].version),
        decreases j - i,
    {
        if !known[i].is_down && known[i].version == known[j].version {
            return true;
        }
        i = i + 1;
    }
    false
}

fn is_known_up(known: &Vec<KnownMigration>, v: i64) -> (r: bool)
    ensures
        r == known_up_has(known@, v),
{
    let mut i: usize = 0;
    while i < known.len()
        invariant
            i <= known@.len(),
            forall|k: int| 0 <= k < i ==> !(!known@[k].is_down && #[trigger] known@[k].version == v),
        decreases known@.len() - i,
    {
        if !known[i].is_down && known[i].version == v {
            return true;
        }
        i = i + 1;
    }
    false
}

fn is_last_of_version(applied: &Vec<AppliedMigration>, i: usize) -> (r: bool)
    requires
        i < applied@.len(),
    ensures
        r == last_of_version(applied@, i as int),
{
    let len = applied.len();
    let mut k: usize = i + 1;
    while k < applied.len()
        invariant
            i < k <= applied@.len(),
            forall|m: int| i < m < k ==> #[trigger] applied@[m].version != applied@[i as int].version,
        decreases applied@.len() - k,
    {
        if applied[k].version == applied[i].version {
            return false;
        }
        k = k + 1;
    }
    true
}

/// Compare the migrations this build knows with those the database has
/// applied, the way the sqlx CLI does: each known up migration is either
/// applied with the same checksum, applied with a different one, or not
/// applied; applied versions that no known up migration has are counted as
/// unrecognized.
pub fn tally_migrations(known: &Vec<KnownMigration>, applied: &Vec<AppliedMigration>) -> (r:
    MigrationTally)
    ensures
        tally_spec(known@, applied@) == (
            r.errors.wrong_checksum as nat,
            r.errors.unapplied as nat,
            r.unrecognized as nat,
            r.total_known as nat,
        ),
{
    let mut wrong: usize = 0;
    let mut unapplied: usize = 0;
    let mut total: usize = 0;
    let mut j: usize = 0;
    while j < known.len()
        invariant
            j <= known@.len(),
            wrong == count_wrong(known@, applied@, j as int),
            unapplied == count_unapplied(known@, applied@, j as int),
            total == count_up(known@, j as int),
            wrong <= j,
            unapplied <= j,
            total <= j,
        decreases known@.len() - j,
    {
        if !known[j].is_down {
            total = total + 1;
            let earlier = up_version_before(known, j);
            match find_applied(applied, known[j].version) {
                Some(i) if !earlier => {
                    if !bytes_eq(&applied[i].checksum, &known[j].checksum) {
                        wrong = wrong + 1;
                    }
                },
                _ => {
                    unapplied = unapplied + 1;
                },
            }
        }
        j = j + 1;
    }
    let mut unrecognized: usize = 0;
    let mut i: usize = 0;
    while i < applied.len()
        invariant
            i <= applied@.len(),
            unrecognized == count_unrecognized(known@, applied@, i as int),
            unrecognized <= i,
        decreases applied@.len() - i,
    {
        if is_last_of_version(applied, i) && !is_known_up(known, applied[i].version) {
            unrecognized = unrecognized + 1;
        }
        i = i + 1;
    }
    MigrationTally {
        errors: MigrationError { wrong_checksum: wrong, unapplied },
        unrecognized,
        total_known: total,
    }
}

} // verus!
