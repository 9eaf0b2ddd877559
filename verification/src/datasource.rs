//! What the database layer decides by itself, apart from the driver that
//! performs the queries: gathering per-row results into one, and judging the
//! schema version a database file carries.

use vstd::prelude::*;

verus! {

/// The schema version this build writes and understands.
pub const CURRENT_VERSION: u32 = 1;

/// Why opening the database failed: the driver reported an error, or the
/// file was written by a newer schema than this build understands.
#[derive(Debug, Clone, PartialEq, Eq)]
pub enum ConnectionError {
    SqliteError(String),
    VersionUnknown { version: u32, current: u32 },
}

/// Judges the schema version found in a database file: a version newer than
/// this build is refused; an accepted one says whether the schema still has
/// to be initialized.
pub fn check_schema_version(version: u32) -> (r: Result<bool, ConnectionError>)
    ensures
        version > CURRENT_VERSION ==> r == Err::<bool, ConnectionError>(
            ConnectionError::VersionUnknown { version, current: CURRENT_VERSION },
        ),
        version <= CURRENT_VERSION ==> r == Ok::<bool, ConnectionError>(version < 1),
{
    if version > CURRENT_VERSION {
        Err(ConnectionError::VersionUnknown { version, current: CURRENT_VERSION })
    } else {
        Ok(version < 1)
    }
}

/// The item sequence's first error exists and is `e`.
pub open spec fn spec_has_first_error<T, E>(s: Seq<Result<T, E>>, e: E) -> bool {
    exists|j: int| spec_first_error_at(s, j, e)
}

/// Position `j` holds the first error of the item sequence, and it is `e`.
pub open spec fn spec_first_error_at<T, E>(s: Seq<Result<T, E>>, j: int, e: E) -> bool {
    &&& 0 <= j < s.len()
    &&& s[j] == Err::<T, E>(e)
    &&& forall|k: int| 0 <= k < j ==> s[k] is Ok
}

/// Gathers per-item results into one: the values of all items when every
/// item succeeded, else the first error.
pub fn collect_results<T, E>(items: Vec<Result<T, E>>) -> (r: Result<Vec<T>, E>)
    ensures
        r matches Ok(values) ==> {
            &&& values@.len() == items@.len()
            &&& forall|j: int| 0 <= j < items@.len() ==> items@[j] == Ok::<T, E>(values@[j])
        },
        r is Err ==> spec_has_first_error(items@, r->Err_0),
{
    let ghost orig = items@;
    let mut remaining = items;
    let mut values: Vec<T> = Vec::new();
    let mut error: Option<E> = None;
    while remaining.len() > 0
        invariant_except_break
            error is None,
            values@.len() + remaining@.len() == orig.len(),
            remaining@ == orig.subrange(values@.len() as int, orig.len() as int),
            forall|j: int| 0 <= j < values@.len() ==> orig[j] == Ok::<T, E>(values@[j]),
        ensures
            match error {
                Some(e) => spec_first_error_at(orig, values@.len() as int, e),
                None => {
                    &&& values@.len() == orig.len()
                    &&& forall|j: int| 0 <= j < orig.len() ==> orig[j] == Ok::<T, E>(values@[j])
                },
            },
        decreases remaining@.len(),
    {
        let ghost taken = values@.len() as int;
        let item = remaining.remove(0);
        proof {
            assert(item == orig[taken]);
            assert(remaining@ =~= orig.subrange(taken + 1, orig.len() as int));
        }
        match item {
            Ok(value) => values.push(value),
            Err(e) => {
                proof {
                    assert(spec_first_error_at(orig, taken, e));
                }
                error = Some(e);
                break ;
            },
        }
    }
    match error {
        Some(e) => {
            proof {
                assert(spec_first_error_at(orig, values@.len() as int, e));
                assert(spec_has_first_error(orig, e));
            }
            Err(e)
        },
        None => Ok(values),
    }
}

} // verus!
