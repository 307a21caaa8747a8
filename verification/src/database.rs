//! The database's schema version checks. Running the queries and migrations is
//! done by the application; these functions decide on their results.

use vstd::prelude::*;

use crate::error::AppError;

verus! {

/// The number of applied migrations, given how many migration bookkeeping tables
/// exist and, when there is one, how many rows it holds: a database without the
/// table has none applied.
pub fn get_applied_migrations_count(bookkeeping_table_count: i64, applied_rows: Option<i64>) -> (count: i64)
    ensures
        count == if bookkeeping_table_count > 0 {
            match applied_rows {
                Some(rows) => rows,
                None => 0,
            }
        } else {
            0
        },
{
    let table_exists = bookkeeping_table_count > 0;
    if !table_exists {
        return 0;
    }
    match applied_rows {
        Some(rows) => rows,
        None => 0,
    }
}

/// Refuses a database that is ahead of the application: when more migrations have
/// been applied than the application knows, the app was downgraded.
pub fn check_schema_version(expected_schema_version: i64, current_schema_version: i64) -> (checked:
    Result<(), AppError>)
    ensures
        checked is Ok <==> current_schema_version <= expected_schema_version,
        checked is Err ==> checked == Err::<(), AppError>(
            AppError::DatabaseDowngradeDetected {
                current: current_schema_version,
                expected: expected_schema_version,
            },
        ),
{
    if expected_schema_version < current_schema_version {
        return Err(
            AppError::DatabaseDowngradeDetected {
                current: current_schema_version,
                expected: expected_schema_version,
            },
        );
    }
    Ok(())
}

} // verus!
