use vstd::prelude::*;

use crate::arguments::{ArgumentValue, Arguments, BoundValue};
use crate::error::Error;
use crate::from_row::FromRow;
use crate::database::{Database, HasArguments, HasStatement, HasStatementCache, HasValueRef};
use crate::encode::{Encode, IsNull};
use crate::types::{SqlValue, Type};
use crate::wire::{put_text_be, put_u64_be, text_be_spec, u64_be_spec};

verus! {

/// The MSSQL backend marker.
#[derive(Clone, Copy, Debug)]
pub struct Mssql;

/// A live MSSQL connection; its protocol lives outside this crate.
pub struct MssqlConnection {
}

/// The MSSQL transaction manager; its protocol lives outside this crate.
pub struct MssqlTransactionManager {
}

/// One row produced by a MSSQL statement.
#[derive(Clone, PartialEq, Eq, Debug)]
pub struct MssqlRow {
    /// The cells of the row, in column order.
    pub values: Vec<SqlValue>,
}

impl View for MssqlRow {
    type V = Seq<BoundValue>;

    open spec fn view(&self) -> Seq<BoundValue> {
        self.values@.map_values(|v: SqlValue| v@)
    }
}

/// The summary of one completed MSSQL statement.
#[derive(Clone, Copy, PartialEq, Eq, Structural, Debug)]
pub struct MssqlDone {
    /// How many rows the statement changed.
    pub rows_affected: u64,
}

/// MSSQL column metadata.
#[derive(Clone, PartialEq, Eq, Debug)]
pub struct MssqlColumn {
    /// Position of the column in its row.
    pub ordinal: usize,
    /// Name of the column.
    pub name: String,
}

/// The nominal MSSQL type of a bindable value.
#[derive(Clone, Copy, PartialEq, Eq, Structural, Debug)]
pub enum MssqlTypeInfo {
    BigInt,
    NVarChar,
}

/// A prepared MSSQL statement handle.
#[derive(Clone, PartialEq, Eq, Debug)]
pub struct MssqlStatement {
    /// The SQL text the statement was prepared from.
    pub sql: String,
}

/// The MSSQL argument list: parameter slots in bind order.
pub struct MssqlArguments {
    values: Vec<ArgumentValue>,
}

/// The payload bytes one bound value contributes to the MSSQL wire form:
/// integers big-endian, text as its characters in order, null nothing.
pub open spec fn mssql_slot_bytes(v: BoundValue) -> Seq<u8> {
    match v {
        BoundValue::Null => Seq::<u8>::empty(),
        BoundValue::Int(i) => u64_be_spec(i as u64),
        BoundValue::Text(s) => text_be_spec(s),
    }
}

/// The MSSQL wire form of a whole argument list: the slots' payloads in
/// bind order.
pub open spec fn mssql_wire_spec(m: Seq<BoundValue>) -> Seq<u8>
    decreases m.len(),
{
    if m.len() == 0 {
        Seq::<u8>::empty()
    } else {
        mssql_wire_spec(m.drop_last()) + mssql_slot_bytes(m.last())
    }
}

impl MssqlArguments {
    /// How many parameters are bound.
    pub fn len(&self) -> (r: usize)
        ensures
            r == Arguments::model(self).len(),
    {
        self.values.len()
    }

    /// The slot at position `i`, in bind order.
    pub fn value_at(&self, i: usize) -> (r: &ArgumentValue)
        requires
            i < Arguments::model(self).len(),
        ensures
            r@ == Arguments::model(self)[i as int],
    {
        &self.values[i]
    }

    /// Renders the whole list into its wire form.
    pub fn wire_bytes(&self) -> (r: Vec<u8>)
        ensures
            r@ == mssql_wire_spec(Arguments::model(self)),
    {
        let mut out: Vec<u8> = Vec::new();
        let n: usize = self.values.len();
        let mut i: usize = 0;
        while i < n
            invariant
                i <= n,
                n == self.values.len(),
                out@ == mssql_wire_spec(Arguments::model(self).take(i as int)),
            decreases n - i,
        {
            match &self.values[i] {
                ArgumentValue::Null => {},
                ArgumentValue::Int(v) => {
                    put_u64_be(#[verifier::truncate] (*v as u64), &mut out);
                },
                ArgumentValue::Text(s) => {
                    put_text_be(s.as_str(), &mut out);
                },
            }
            proof {
                let m = Arguments::model(self);
                assert(m.take(i + 1).drop_last() =~= m.take(i as int));
                assert(m.take(i + 1).last() == m[i as int]);
                assert(out@ =~= mssql_wire_spec(m.take(i + 1)));
            }
            i = i + 1;
        }
        proof {
            assert(Arguments::model(self).take(n as int) =~= Arguments::model(self));
        }
        out
    }
}

impl Database for Mssql {
    type Connection = MssqlConnection;
    type TransactionManager = MssqlTransactionManager;
    type Row = MssqlRow;
    type Done = MssqlDone;
    type Column = MssqlColumn;
    type TypeInfo = MssqlTypeInfo;
    type Value = SqlValue;
}

impl HasValueRef for Mssql {
    type Database = Mssql;
    type ValueRef = SqlValue;
}

impl HasStatement for Mssql {
    type Database = Mssql;
    type Statement = MssqlStatement;

    open spec fn statement_sql_spec(stmt: &MssqlStatement) -> Seq<char> {
        stmt.sql@
    }

    fn statement_sql(stmt: &MssqlStatement) -> (r: &String) {
        &stmt.sql
    }

    fn clone_statement(stmt: &MssqlStatement) -> (r: MssqlStatement) {
        MssqlStatement { sql: stmt.sql.clone() }
    }
}

impl HasArguments for Mssql {
    type Database = Mssql;
    type Arguments = MssqlArguments;
    type ArgumentBuffer = Vec<ArgumentValue>;
    type Erased = ();
    type BufferModel = Seq<BoundValue>;

    open spec fn buffer_model(buf: &Vec<ArgumentValue>) -> Seq<BoundValue> {
        buf@.map_values(|v: ArgumentValue| v@)
    }

    open spec fn buffer_append(pre: Seq<BoundValue>, v: BoundValue, is_null: bool) -> Seq<
        BoundValue,
    > {
        if is_null {
            pre
        } else {
            pre.push(v)
        }
    }

    proof fn buffer_append_null_law(pre: Seq<BoundValue>, v: BoundValue) {
    }

    open spec fn supports_erase() -> bool {
        false
    }

    open spec fn erased_model(e: &()) -> BoundValue {
        BoundValue::Null
    }

    fn erased_null() -> (r: ()) {
        ()
    }
}

impl HasStatementCache for Mssql {

}

impl Default for MssqlArguments {
    /// An empty argument list.
    fn default() -> (r: Self)
        ensures
            Arguments::model(&r) == Seq::<BoundValue>::empty(),
    {
        Arguments::empty()
    }
}

impl Arguments for MssqlArguments {
    type Database = Mssql;

    closed spec fn model(&self) -> Seq<BoundValue> {
        self.values@.map_values(|v: ArgumentValue| v@)
    }

    fn empty() -> (r: Self) {
        let r = MssqlArguments { values: Vec::new() };
        proof {
            assert(r.model() =~= Seq::<BoundValue>::empty());
        }
        r
    }

    fn reserve(&mut self, additional: usize, _size: usize) {
        self.values.reserve(additional);
    }

    fn add<T>(&mut self, value: T) where T: Encode<Mssql> + Type<Mssql> {
        proof {
            value.bound_null_law();
        }
        let is_null = value.encode(&mut self.values);
        match is_null {
            IsNull::Yes => {
                self.values.push(ArgumentValue::Null);
            },
            IsNull::No => {},
        }
        proof {
            assert(self.model() =~= old(self).model().push(value.bound_spec()));
        }
    }
}

impl Encode<Mssql> for i64 {
    open spec fn bound_spec(&self) -> BoundValue {
        BoundValue::Int(*self)
    }

    open spec fn is_null_spec(&self) -> bool {
        false
    }

    open spec fn produces_spec(&self) -> Option<MssqlTypeInfo> {
        Some(MssqlTypeInfo::BigInt)
    }

    open spec fn size_hint_spec(&self) -> usize {
        8
    }

    proof fn bound_null_law(&self) {
    }

    fn encode_by_ref(&self, buf: &mut Vec<ArgumentValue>) -> (r: IsNull) {
        buf.push(ArgumentValue::Int(*self));
        proof {
            assert(buf@.map_values(|v: ArgumentValue| v@) =~= old(buf)@.map_values(
                |v: ArgumentValue| v@,
            ).push(BoundValue::Int(*self)));
        }
        IsNull::No
    }

    fn produces(&self) -> (r: Option<MssqlTypeInfo>) {
        Some(MssqlTypeInfo::BigInt)
    }

    fn size_hint(&self) -> (r: usize) {
        8
    }

    fn erase(&self) -> (r: ()) {
        ()
    }
}

impl Encode<Mssql> for String {
    open spec fn bound_spec(&self) -> BoundValue {
        BoundValue::Text(self@)
    }

    open spec fn is_null_spec(&self) -> bool {
        false
    }

    open spec fn produces_spec(&self) -> Option<MssqlTypeInfo> {
        Some(MssqlTypeInfo::NVarChar)
    }

    open spec fn size_hint_spec(&self) -> usize {
        24
    }

    proof fn bound_null_law(&self) {
    }

    fn encode_by_ref(&self, buf: &mut Vec<ArgumentValue>) -> (r: IsNull) {
        buf.push(ArgumentValue::Text(self.clone()));
        proof {
            assert(buf@.map_values(|v: ArgumentValue| v@) =~= old(buf)@.map_values(
                |v: ArgumentValue| v@,
            ).push(BoundValue::Text(self@)));
        }
        IsNull::No
    }

    fn produces(&self) -> (r: Option<MssqlTypeInfo>) {
        Some(MssqlTypeInfo::NVarChar)
    }

    fn size_hint(&self) -> (r: usize) {
        24
    }

    fn erase(&self) -> (r: ()) {
        ()
    }
}

impl Type<Mssql> for i64 {
    open spec fn type_info_spec() -> MssqlTypeInfo {
        MssqlTypeInfo::BigInt
    }

    fn type_info() -> (r: MssqlTypeInfo) {
        MssqlTypeInfo::BigInt
    }
}

impl Type<Mssql> for String {
    open spec fn type_info_spec() -> MssqlTypeInfo {
        MssqlTypeInfo::NVarChar
    }

    fn type_info() -> (r: MssqlTypeInfo) {
        MssqlTypeInfo::NVarChar
    }
}


/// An integer decodes from the first cell of a row.
impl FromRow<MssqlRow> for i64 {
    open spec fn from_row_spec(row: &MssqlRow) -> Result<i64, Error> {
        if row@.len() >= 1 {
            match row@[0] {
                BoundValue::Int(i) => Ok(i),
                _ => Err(Error::Decode),
            }
        } else {
            Err(Error::Decode)
        }
    }

    fn from_row(row: &MssqlRow) -> (r: Result<i64, Error>) {
        if row.values.len() >= 1 {
            match &row.values[0] {
                SqlValue::Int(i) => Ok(*i),
                _ => Err(Error::Decode),
            }
        } else {
            Err(Error::Decode)
        }
    }
}

} // verus!
