use vstd::prelude::*;

use crate::arguments::BoundValue;
use crate::database::Database;

verus! {

/// An owned, decoded cell value, as rows carry it.
#[derive(Clone, PartialEq, Eq, Debug)]
pub enum SqlValue {
    /// An SQL NULL.
    Null,
    /// A 64-bit signed integer.
    Int(i64),
    /// A text.
    Text(String),
}

impl View for SqlValue {
    type V = BoundValue;

    open spec fn view(&self) -> BoundValue {
        match self {
            SqlValue::Null => BoundValue::Null,
            SqlValue::Int(i) => BoundValue::Int(*i),
            SqlValue::Text(s) => BoundValue::Text(s@),
        }
    }
}

/// The static type descriptor of a value type for the family `DB`: what
/// nominal SQL type a bind of this type announces, independent of any
/// particular value.
pub trait Type<DB: Database> {
    /// The nominal type descriptor.
    spec fn type_info_spec() -> DB::TypeInfo;

    /// Reports the nominal type descriptor.
    fn type_info() -> (r: DB::TypeInfo)
        ensures
            r == Self::type_info_spec(),
    ;
}

/// An optional value announces the same nominal type as the inner type.
impl<DB: Database, T: Type<DB>> Type<DB> for Option<T> {
    open spec fn type_info_spec() -> DB::TypeInfo {
        T::type_info_spec()
    }

    fn type_info() -> (r: DB::TypeInfo) {
        T::type_info()
    }
}

} // verus!
