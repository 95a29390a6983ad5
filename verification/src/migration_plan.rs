//! Which schema migrations run for a database at a given version, and
//! which failures of a migration statement are harmless.

use vstd::prelude::*;
use crate::text::{occurs, occurs_in};

verus! {

/// The schema version after all migrations.
pub const SCHEMA_VERSION: i64 = 12;

/// The migration steps, in order (there is no step 5).
pub open spec fn migration_steps() -> Seq<i64> {
    seq![1, 2, 3, 4, 6, 7, 8, 9, 10, 11, 12]
}

/// The steps still to run from `version`, in order.
pub open spec fn pending_spec(version: i64) -> Seq<i64> {
    migration_steps().filter(|s: i64| version < s)
}

/// The migration steps to run for a database at `version`, in order.
pub fn pending_migrations(version: i64) -> (res: Vec<i64>)
    ensures
        res@ == pending_spec(version),
{
    let steps: [i64; 11] = [1, 2, 3, 4, 6, 7, 8, 9, 10, 11, 12];
    proof {
        assert(steps@ =~= migration_steps());
    }
    let mut out: Vec<i64> = Vec::new();
    let mut i: usize = 0;
    while i < 11
        invariant
            i <= 11,
            steps@ == migration_steps(),
            out@ == migration_steps().take(i as int).filter(|s: i64| version < s),
        decreases 11 - i,
    {
        proof {
            reveal(Seq::filter);
            assert(migration_steps().take(i + 1).drop_last() =~= migration_steps().take(i as int));
        }
        if version < steps[i] {
            out.push(steps[i]);
        }
        i = i + 1;
    }
    proof {
        assert(migration_steps().take(11) =~= migration_steps());
    }
    out
}

/// Whether a migration statement's error only says that the column or
/// index is there already.
pub open spec fn ignorable_spec(msg: Seq<char>) -> bool {
    occurs_in(msg, "duplicate column"@) || occurs_in(msg, "already exists"@) || (occurs_in(msg, "SQLITE_ERROR"@)
        && occurs_in(msg, "duplicate"@))
}

/// Whether a migration statement's error can be ignored.
pub fn ignorable_migration_error(msg: &str) -> (res: bool)
    ensures
        res == ignorable_spec(msg@),
{
    occurs(msg, "duplicate column") || occurs(msg, "already exists") || (occurs(msg, "SQLITE_ERROR") && occurs(
        msg,
        "duplicate",
    ))
}

/// A database at the current version runs no migration, and one that is
/// new runs them all.
pub proof fn lemma_pending_bounds()
    ensures
        pending_spec(SCHEMA_VERSION).len() == 0,
        pending_spec(0) == migration_steps(),
{
    reveal(Seq::filter);
    assert(pending_spec(SCHEMA_VERSION) =~= Seq::<i64>::empty()) by {
        reveal_with_fuel(Seq::<i64>::filter, 12);
    }
    assert(pending_spec(0) =~= migration_steps()) by {
        reveal_with_fuel(Seq::<i64>::filter, 12);
    }
}

} // verus!
