use vstd::prelude::*;

use crate::error::Error;

verus! {

/// Decoding of one produced row into a domain value.
///
/// A fetch operation invokes this once per row; the first failure aborts the
/// remaining sequence with a decode error.
pub trait FromRow<R>: Sized {
    /// The exact decode outcome for `row`.
    spec fn from_row_spec(row: &R) -> Result<Self, Error>;

    /// Decodes one row.
    fn from_row(row: &R) -> (r: Result<Self, Error>)
        ensures
            r == Self::from_row_spec(row),
    ;
}

/// A one-element tuple decodes as its element does; this is what lets the
/// scalar query builder reuse the row-mapped machinery unchanged.
impl<R, O: FromRow<R>> FromRow<R> for (O,) {
    open spec fn from_row_spec(row: &R) -> Result<(O,), Error> {
        match O::from_row_spec(row) {
            Ok(o) => Ok((o,)),
            Err(e) => Err(e),
        }
    }

    fn from_row(row: &R) -> (r: Result<(O,), Error>) {
        match O::from_row(row) {
            Ok(o) => Ok((o,)),
            Err(e) => Err(e),
        }
    }
}

} // verus!
