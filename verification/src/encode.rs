use vstd::prelude::*;

use crate::arguments::BoundValue;
use crate::database::{Database, HasArguments};
use crate::types::Type;

verus! {

/// The declared outcome of one encode operation.
///
/// Null-ness is a declared result, not inferred from the byte count: a value
/// may be not null and still write no bytes.
#[derive(Clone, Copy, PartialEq, Eq, Structural, Debug)]
pub enum IsNull {
    /// The value is null; no data was written.
    Yes,
    /// The value is not null.  This does not mean that data was written.
    No,
}

/// Encoding of one value for the family `DB`.
///
/// The contract is stated against the family's buffer model: encoding appends
/// the value's backend-independent model (`bound_spec`) to the buffer, in the
/// way the family's `buffer_append` describes.  A value that reports null
/// writes nothing into a raw buffer.
pub trait Encode<DB: Database + HasArguments>: Sized {
    /// The backend-independent model of this value.
    spec fn bound_spec(&self) -> BoundValue;

    /// Whether this value is logically null.
    spec fn is_null_spec(&self) -> bool;

    /// The value-dependent type descriptor this value reports, if any.
    spec fn produces_spec(&self) -> Option<DB::TypeInfo>;

    /// The capacity hint this value reports.
    spec fn size_hint_spec(&self) -> usize;

    /// A value that reports null has the null model.
    proof fn bound_null_law(&self)
        ensures
            self.is_null_spec() ==> self.bound_spec() == BoundValue::Null,
    ;

    /// Writes this value into `buf` without consuming it.
    fn encode_by_ref(&self, buf: &mut DB::ArgumentBuffer) -> (r: IsNull)
        ensures
            DB::buffer_model(final(buf)) == DB::buffer_append(
                DB::buffer_model(old(buf)),
                self.bound_spec(),
                self.is_null_spec(),
            ),
            r == IsNull::Yes <==> self.is_null_spec(),
    ;

    /// Writes this value into `buf`, consuming it.  A backend overrides this
    /// only where taking ownership makes a cheaper write possible.
    fn encode(self, buf: &mut DB::ArgumentBuffer) -> (r: IsNull)
        ensures
            DB::buffer_model(final(buf)) == DB::buffer_append(
                DB::buffer_model(old(buf)),
                self.bound_spec(),
                self.is_null_spec(),
            ),
            r == IsNull::Yes <==> self.is_null_spec(),
    {
        self.encode_by_ref(buf)
    }

    /// The value-dependent type descriptor, where the backend needs one; a
    /// plain value reports none.
    fn produces(&self) -> (r: Option<DB::TypeInfo>)
        ensures
            r == self.produces_spec(),
    ;

    /// A capacity hint for buffer preallocation; never load-bearing.
    fn size_hint(&self) -> (r: usize)
        ensures
            r == self.size_hint_spec(),
    ;

    /// Captures this value in the family's type-erased form.
    fn erase(&self) -> (r: DB::Erased)
        ensures
            DB::supports_erase() ==> DB::erased_model(&r) == self.bound_spec(),
    ;
}

/// An optional value: present, it encodes exactly as the inner value does;
/// absent, it writes nothing, reports null, and still reports the inner type's
/// static descriptor, so the column's nominal type stays known.
impl<DB, T> Encode<DB> for Option<T> where
    DB: Database + HasArguments,
    T: Encode<DB> + Type<DB>,
 {
    open spec fn bound_spec(&self) -> BoundValue {
        match self {
            Some(v) => v.bound_spec(),
            None => BoundValue::Null,
        }
    }

    open spec fn is_null_spec(&self) -> bool {
        match self {
            Some(v) => v.is_null_spec(),
            None => true,
        }
    }

    open spec fn produces_spec(&self) -> Option<DB::TypeInfo> {
        match self {
            Some(v) => v.produces_spec(),
            None => Some(T::type_info_spec()),
        }
    }

    open spec fn size_hint_spec(&self) -> usize {
        match self {
            Some(v) => v.size_hint_spec(),
            None => 0,
        }
    }

    proof fn bound_null_law(&self) {
        match self {
            Some(v) => v.bound_null_law(),
            None => {},
        }
    }

    fn encode_by_ref(&self, buf: &mut DB::ArgumentBuffer) -> (r: IsNull) {
        match self {
            Some(v) => v.encode_by_ref(buf),
            None => {
                proof {
                    DB::buffer_append_null_law(DB::buffer_model(buf), BoundValue::Null);
                }
                IsNull::Yes
            },
        }
    }

    fn encode(self, buf: &mut DB::ArgumentBuffer) -> (r: IsNull) {
        match self {
            Some(v) => v.encode(buf),
            None => {
                proof {
                    DB::buffer_append_null_law(DB::buffer_model(buf), BoundValue::Null);
                }
                IsNull::Yes
            },
        }
    }

    fn produces(&self) -> (r: Option<DB::TypeInfo>) {
        match self {
            Some(v) => v.produces(),
            None => Some(T::type_info()),
        }
    }

    fn size_hint(&self) -> (r: usize) {
        match self {
            Some(v) => v.size_hint(),
            None => 0,
        }
    }

    fn erase(&self) -> (r: DB::Erased) {
        match self {
            Some(v) => v.erase(),
            None => DB::erased_null(),
        }
    }
}


/// A reference encodes exactly as the value it points to, forwarding the
/// type descriptor and the size hint unchanged.
impl<DB, T> Encode<DB> for &T where DB: Database + HasArguments, T: Encode<DB> {
    open spec fn bound_spec(&self) -> BoundValue {
        (**self).bound_spec()
    }

    open spec fn is_null_spec(&self) -> bool {
        (**self).is_null_spec()
    }

    open spec fn produces_spec(&self) -> Option<DB::TypeInfo> {
        (**self).produces_spec()
    }

    open spec fn size_hint_spec(&self) -> usize {
        (**self).size_hint_spec()
    }

    proof fn bound_null_law(&self) {
        (**self).bound_null_law();
    }

    fn encode_by_ref(&self, buf: &mut DB::ArgumentBuffer) -> (r: IsNull) {
        (**self).encode_by_ref(buf)
    }

    fn encode(self, buf: &mut DB::ArgumentBuffer) -> (r: IsNull) {
        (*self).encode_by_ref(buf)
    }

    fn produces(&self) -> (r: Option<DB::TypeInfo>) {
        (**self).produces()
    }

    fn size_hint(&self) -> (r: usize) {
        (**self).size_hint()
    }

    fn erase(&self) -> (r: DB::Erased) {
        (**self).erase()
    }
}

/// A reference announces the same nominal type as the value it points to.
impl<DB: Database, T: Type<DB>> Type<DB> for &T {
    open spec fn type_info_spec() -> DB::TypeInfo {
        T::type_info_spec()
    }

    fn type_info() -> (r: DB::TypeInfo) {
        T::type_info()
    }
}

/// The derived rules for binding an optional value, stated for every family
/// and every encodable inner type.  Present, an optional encodes exactly as
/// the inner value does and reports the same value-dependent type descriptor.
/// Absent, it is null — its model is the null model, so it writes nothing —
/// and it still reports the inner type's static descriptor, keeping the
/// column's nominal type known.
pub proof fn lemma_option_encoding<DB, T>(v: T) where
    DB: Database + HasArguments,
    T: Encode<DB> + Type<DB>,

    ensures
        <Option<T> as Encode<DB>>::bound_spec(&Some(v)) == v.bound_spec(),
        <Option<T> as Encode<DB>>::is_null_spec(&Some(v)) == v.is_null_spec(),
        <Option<T> as Encode<DB>>::produces_spec(&Some(v)) == v.produces_spec(),
        <Option<T> as Encode<DB>>::bound_spec(&Option::<T>::None) == BoundValue::Null,
        <Option<T> as Encode<DB>>::is_null_spec(&Option::<T>::None),
        <Option<T> as Encode<DB>>::produces_spec(&Option::<T>::None) == Some(
            T::type_info_spec(),
        ),
{
}

} // verus!
