use vstd::prelude::*;

verus! {

/// The error kinds that query execution and decoding can surface.
///
/// `RowNotFound` is the cardinality failure of `fetch_one`: exactly one row
/// was required and zero arrived.  `Decode` reports that a row could not be
/// converted into the requested output value.  `Protocol` stands for a
/// transport or executor failure, opaque to this crate and propagated
/// unchanged through a fetch.
#[derive(Clone, Copy, PartialEq, Eq, Structural, Debug)]
pub enum Error {
    /// No row was returned by a query that expected to return exactly one row.
    RowNotFound,
    /// A row could not be decoded into the requested output type.
    Decode,
    /// The executor or its transport failed; the failure is opaque here.
    Protocol,
}

impl Error {
    /// A short description, usable where an error text is wanted.
    pub fn message(&self) -> (r: &'static str)
        ensures
            self is RowNotFound ==> r@ == "no rows returned by a query that expected to return at least one row"@,
            self is Decode ==> r@ == "error occurred while decoding a row"@,
            self is Protocol ==> r@ == "transport or executor failure"@,
    {
        match self {
            Error::RowNotFound => "no rows returned by a query that expected to return at least one row",
            Error::Decode => "error occurred while decoding a row",
            Error::Protocol => "transport or executor failure",
        }
    }
}

} // verus!
