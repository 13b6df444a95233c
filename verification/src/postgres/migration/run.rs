//! How the outcome of running migrations combines the migration's result with
//! the result of closing its connection.

use vstd::prelude::*;

verus! {

/// Why running migrations failed: closing the connection, the migration, or both.
pub enum MigrationFailure<M, C> {
    Close(C),
    Migrate(M),
    MigrateAndClose { migrate: M, close: C },
}

/// The outcome of a migration run from the migration's result and the result
/// of closing the connection afterwards: success only when both succeeded,
/// and otherwise every failure that happened.
pub fn combine_migration_results<M, C>(migration: Result<(), M>, close: Result<(), C>) -> (r:
    Result<(), MigrationFailure<M, C>>)
    ensures
        match (migration, close) {
            (Ok(()), Ok(())) => r == Ok::<(), MigrationFailure<M, C>>(()),
            (Ok(()), Err(c)) => r == Err::<(), MigrationFailure<M, C>>(MigrationFailure::Close(c)),
            (Err(m), Ok(())) => r == Err::<(), MigrationFailure<M, C>>(
                MigrationFailure::Migrate(m),
            ),
            (Err(m), Err(c)) => r == Err::<(), MigrationFailure<M, C>>(
                MigrationFailure::MigrateAndClose { migrate: m, close: c },
            ),
        },
{
    match (migration, close) {
        (Ok(()), Ok(())) => Ok(()),
        (Ok(()), Err(close)) => Err(MigrationFailure::Close(close)),
        (Err(migrate), Ok(())) => Err(MigrationFailure::Migrate(migrate)),
        (Err(migrate), Err(close)) => Err(MigrationFailure::MigrateAndClose { migrate, close }),
    }
}

} // verus!
