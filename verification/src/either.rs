use vstd::prelude::*;

verus! {

/// A tagged choice between two alternatives.
///
/// A result stream is a sequence of `Either<Done, Row>` items: `Left` carries
/// the completion summary of one statement, `Right` carries one produced row.
#[derive(Clone, PartialEq, Eq, Debug)]
pub enum Either<L, R> {
    Left(L),
    Right(R),
}

impl<L, R> Either<L, R> {
    /// The right alternative, if this is one.
    pub fn right(self) -> (r: Option<R>)
        ensures
            match self {
                Either::Right(v) => r == Some(v),
                Either::Left(_) => r is None,
            },
    {
        match self {
            Either::Right(v) => Some(v),
            Either::Left(_) => None,
        }
    }

    /// The left alternative, if this is one.
    pub fn left(self) -> (r: Option<L>)
        ensures
            match self {
                Either::Left(v) => r == Some(v),
                Either::Right(_) => r is None,
            },
    {
        match self {
            Either::Left(v) => Some(v),
            Either::Right(_) => None,
        }
    }
}

} // verus!
