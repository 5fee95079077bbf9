use vstd::prelude::*;

use crate::arguments::BoundValue;

verus! {

/// The family of kinds one backend supplies: its connection, its transaction
/// manager, and the shapes of rows, completion summaries, column metadata,
/// nominal type descriptors and owned cell values.
///
/// A backend is a zero-sized marker implementing this trait together with the
/// facet traits below; everything else in the crate is written once, generically
/// over the family.
pub trait Database: Sized {
    /// A live connection to this backend.
    type Connection;

    /// The transaction manager of this backend.
    type TransactionManager;

    /// One row produced by a statement.
    type Row;

    /// The summary returned when a statement completes (rows affected, etc.).
    type Done;

    /// Column metadata: name, ordinal, type.
    type Column;

    /// The nominal SQL type descriptor of this backend.
    type TypeInfo;

    /// An owned, decoded cell value.
    type Value;
}

/// The facet supplying the borrowed-cell kind of a family.
pub trait HasValueRef {
    type Database: Database;

    /// A view of one cell of a row.
    type ValueRef;
}

/// The facet supplying the prepared-statement kind of a family.
pub trait HasStatement {
    type Database: Database;

    /// A prepared statement of this backend.
    type Statement;

    /// The SQL text a statement was prepared from.
    spec fn statement_sql_spec(stmt: &Self::Statement) -> Seq<char>;

    /// Reads the SQL text back out of a statement.
    fn statement_sql(stmt: &Self::Statement) -> (r: &String)
        ensures
            r@ == Self::statement_sql_spec(stmt),
    ;

    /// Duplicates a statement handle, keeping its SQL text.
    fn clone_statement(stmt: &Self::Statement) -> (r: Self::Statement)
        ensures
            Self::statement_sql_spec(&r) == Self::statement_sql_spec(stmt),
    ;
}

/// The facet supplying the argument kinds of a family: the owned parameter
/// list, the raw buffer values are encoded into, and the family's type-erased
/// capture of one bound value.
///
/// The spec side gives every buffer a mathematical model and says how encoding
/// one value transforms that model; the `Encode` contract is stated against
/// these two functions, so that one contract covers both the concrete backends
/// and the runtime-bridging family.
pub trait HasArguments {
    type Database: Database;

    /// The owned parameter list of this family.
    type Arguments;

    /// The buffer an encode operation writes into.
    type ArgumentBuffer;

    /// The type-erased capture of one bound value.  A concrete backend encodes
    /// at bind time and has no erased form (unit); the runtime-bridging family
    /// captures the value itself and encodes it later, at conversion time.
    type Erased;

    /// The mathematical model of an argument buffer.
    type BufferModel;

    /// The model of a buffer value.
    spec fn buffer_model(buf: &Self::ArgumentBuffer) -> Self::BufferModel;

    /// How encoding one bound value transforms a buffer model.  A null value
    /// writes nothing into a raw buffer; whether the family nevertheless
    /// records a slot for it is the family's own choice, expressed here.
    spec fn buffer_append(pre: Self::BufferModel, v: BoundValue, is_null: bool) -> Self::BufferModel;

    /// A null value writes nothing: appending with the null outcome leaves a
    /// buffer's model unchanged, in every family.
    proof fn buffer_append_null_law(pre: Self::BufferModel, v: BoundValue)
        ensures
            Self::buffer_append(pre, v, true) == pre,
    ;

    /// Whether this family's erased captures carry the bound value.
    spec fn supports_erase() -> bool;

    /// The bound value an erased capture stands for.
    spec fn erased_model(e: &Self::Erased) -> BoundValue;

    /// The erased capture of an absent optional value.
    fn erased_null() -> (r: Self::Erased)
        ensures
            Self::supports_erase() ==> Self::erased_model(&r) == BoundValue::Null,
    ;
}

/// Marker: the backend is able to cache prepared statements.
pub trait HasStatementCache {

}

} // verus!
