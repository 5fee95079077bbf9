use vstd::prelude::*;

use crate::database::{Database, HasArguments};
use crate::encode::Encode;
use crate::types::Type;

verus! {

/// The backend-independent model of one bound parameter: what the caller
/// bound, before any backend renders it into wire bytes.
pub enum BoundValue {
    /// An absent value.
    Null,
    /// A 64-bit signed integer.
    Int(i64),
    /// A text, as its characters.
    Text(Seq<char>),
}

/// One parameter slot as a backend's argument list stores it.
#[derive(Clone, PartialEq, Eq, Debug)]
pub enum ArgumentValue {
    /// An absent value; it contributes no payload bytes to the wire form.
    Null,
    /// A 64-bit signed integer.
    Int(i64),
    /// A text.
    Text(String),
}

impl View for ArgumentValue {
    type V = BoundValue;

    open spec fn view(&self) -> BoundValue {
        match self {
            ArgumentValue::Null => BoundValue::Null,
            ArgumentValue::Int(i) => BoundValue::Int(*i),
            ArgumentValue::Text(s) => BoundValue::Text(s@),
        }
    }
}

/// An ordered collection of parameters for one execution of a query.
///
/// The model is the sequence of bound values in bind order; insertion order
/// equals SQL placeholder order (the positional contract).  The list is built
/// incrementally, handed over once at execution time, then discarded.
pub trait Arguments: Sized {
    type Database: Database + HasArguments;

    /// The bound parameters, in bind order.
    spec fn model(&self) -> Seq<BoundValue>;

    /// A fresh, empty list.
    fn empty() -> (r: Self)
        ensures
            r.model() == Seq::<BoundValue>::empty(),
    ;

    /// Reserves capacity for at least `additional` further values of `size`
    /// total bytes.  A pure capacity hint: it never changes the order, the
    /// count or the content of the parameters, so every later encoding comes
    /// out the same whether or not it was called.
    fn reserve(&mut self, additional: usize, size: usize)
        ensures
            final(self).model() == old(self).model(),
    ;

    /// Adds one value at the end of the list.
    fn add<T>(&mut self, value: T) where
        T: Encode<Self::Database> + Type<Self::Database>,

        ensures
            final(self).model() == old(self).model().push(value.bound_spec()),
    ;
}

/// Conversion of a user-supplied parameter collection into the native argument
/// list of a family.  The identity conversion below makes every native list
/// convertible into itself, so generic code accepts either form uniformly.
pub trait IntoArguments<DB>: Sized where
    DB: Database + HasArguments,
    DB::Arguments: Arguments<Database = DB>,
 {
    /// The bound parameters this collection carries, in bind order.
    spec fn model(&self) -> Seq<BoundValue>;

    /// Converts into the family's native argument list, keeping the
    /// parameters and their order.
    fn into_arguments(self) -> (r: DB::Arguments)
        ensures
            <DB::Arguments as Arguments>::model(&r) == self.model(),
    ;
}

/// A native argument list converts into itself.
impl<DB, A> IntoArguments<DB> for A where
    DB: Database + HasArguments<Arguments = A>,
    A: Arguments<Database = DB>,
 {
    open spec fn model(&self) -> Seq<BoundValue> {
        <A as Arguments>::model(self)
    }

    fn into_arguments(self) -> (r: A) {
        self
    }
}

} // verus!
