//! The optional-lookup adapter: turns a single-row fetch outcome into an
//! optional result, absorbing exactly the row-not-found signal of the store
//! client and passing every other outcome through unchanged.

use vstd::prelude::*;

verus! {

/// A store-client failure, as the generated operations see it: either the
/// distinguishable row-not-found outcome of a single-row fetch, or any other
/// failure of the client, carried unchanged.
#[derive(Debug, Clone, PartialEq, Eq)]
pub enum StoreError<E> {
    RowNotFound,
    Other(E),
}

/// The optional point lookup in terms of the point lookup's outcome: a
/// fetched row is wrapped as present, the row-not-found outcome becomes an
/// empty result, and every other failure propagates unchanged. This is the
/// only branch of generation tied to a runtime outcome rather than to schema
/// shape.
pub fn absorb_row_not_found<R, E>(fetched: Result<R, StoreError<E>>) -> (r: Result<
    Option<R>,
    StoreError<E>,
>)
    ensures
        match fetched {
            Ok(row) => r == Ok::<Option<R>, StoreError<E>>(Some(row)),
            Err(StoreError::RowNotFound) => r == Ok::<Option<R>, StoreError<E>>(None),
            Err(StoreError::Other(e)) => r == Err::<Option<R>, StoreError<E>>(StoreError::Other(e)),
        },
{
    match fetched {
        Ok(row) => Ok(Some(row)),
        Err(StoreError::RowNotFound) => Ok(None),
        Err(e) => Err(e),
    }
}

} // verus!
