use vstd::prelude::*;
use vstd::string::StrSliceExecFns;

use crate::arguments::{ArgumentValue, Arguments, BoundValue};
use crate::error::Error;
use crate::from_row::FromRow;
use crate::database::{Database, HasArguments, HasStatement, HasStatementCache, HasValueRef};
use crate::encode::{Encode, IsNull};
use crate::types::{SqlValue, Type};
use crate::wire::{put_text_le, put_u64_le, text_le_spec, u64_le_spec};

verus! {

/// The MySQL backend marker.
#[derive(Clone, Copy, Debug)]
pub struct MySql;

/// A live MySQL connection; its protocol lives outside this crate.
pub struct MySqlConnection {
}

/// The MySQL transaction manager; its protocol lives outside this crate.
pub struct MySqlTransactionManager {
}

/// One row produced by a MySQL statement.
#[derive(Clone, PartialEq, Eq, Debug)]
pub struct MySqlRow {
    /// The cells of the row, in column order.
    pub values: Vec<SqlValue>,
}

impl View for MySqlRow {
    type V = Seq<BoundValue>;

    open spec fn view(&self) -> Seq<BoundValue> {
        self.values@.map_values(|v: SqlValue| v@)
    }
}

/// The summary of one completed MySQL statement.
#[derive(Clone, Copy, PartialEq, Eq, Structural, Debug)]
pub struct MySqlDone {
    /// How many rows the statement changed.
    pub rows_affected: u64,
}

/// MySQL column metadata.
#[derive(Clone, PartialEq, Eq, Debug)]
pub struct MySqlColumn {
    /// Position of the column in its row.
    pub ordinal: usize,
    /// Name of the column.
    pub name: String,
}

/// The nominal MySQL type of a bindable value.
#[derive(Clone, Copy, PartialEq, Eq, Structural, Debug)]
pub enum MySqlTypeInfo {
    BigInt,
    VarChar,
}

/// A prepared MySQL statement handle.
#[derive(Clone, PartialEq, Eq, Debug)]
pub struct MySqlStatement {
    /// The SQL text the statement was prepared from.
    pub sql: String,
}

/// The MySQL argument list: parameter slots in bind order.
pub struct MySqlArguments {
    values: Vec<ArgumentValue>,
}

/// The payload bytes one bound value contributes to the MySQL wire form:
/// integers little-endian, text length-prefixed and then its characters in
/// order, null nothing.
pub open spec fn mysql_slot_bytes(v: BoundValue) -> Seq<u8> {
    match v {
        BoundValue::Null => Seq::<u8>::empty(),
        BoundValue::Int(i) => u64_le_spec(i as u64),
        BoundValue::Text(s) => u64_le_spec(s.len() as u64) + text_le_spec(s),
    }
}

/// The MySQL wire form of a whole argument list: the slots' payloads in
/// bind order.
pub open spec fn mysql_wire_spec(m: Seq<BoundValue>) -> Seq<u8>
    decreases m.len(),
{
    if m.len() == 0 {
        Seq::<u8>::empty()
    } else {
        mysql_wire_spec(m.drop_last()) + mysql_slot_bytes(m.last())
    }
}

impl MySqlArguments {
    /// How many parameters are bound.
    pub fn len(&self) -> (r: usize)
        ensures
            r == Arguments::model(self).len(),
    {
        self.values.len()
    }

    /// The slot at position `i`, in bind order.
    pub fn value_at(&self, i: usize) -> (r: &ArgumentValue)
        requires
            i < Arguments::model(self).len(),
        ensures
            r@ == Arguments::model(self)[i as int],
    {
        &self.values[i]
    }

    /// Renders the whole list into its wire form.
    pub fn wire_bytes(&self) -> (r: Vec<u8>)
        ensures
            r@ == mysql_wire_spec(Arguments::model(self)),
    {
        let mut out: Vec<u8> = Vec::new();
        let n: usize = self.values.len();
        let mut i: usize = 0;
        while i < n
            invariant
                i <= n,
                n == self.values.len(),
                out@ == mysql_wire_spec(Arguments::model(self).take(i as int)),
            decreases n - i,
        {
            match &self.values[i] {
                ArgumentValue::Null => {},
                ArgumentValue::Int(v) => {
                    put_u64_le(#[verifier::truncate] (*v as u64), &mut out);
                },
                ArgumentValue::Text(s) => {
                    let count: usize = s.as_str().unicode_len();
                    put_u64_le(count as u64, &mut out);
                    put_text_le(s.as_str(), &mut out);
                },
            }
            proof {
                let m = Arguments::model(self);
                assert(m.take(i + 1).drop_last() =~= m.take(i as int));
                assert(m.take(i + 1).last() == m[i as int]);
                assert(out@ =~= mysql_wire_spec(m.take(i + 1)));
            }
            i = i + 1;
        }
        proof {
            assert(Arguments::model(self).take(n as int) =~= Arguments::model(self));
        }
        out
    }
}

impl Database for MySql {
    type Connection = MySqlConnection;
    type TransactionManager = MySqlTransactionManager;
    type Row = MySqlRow;
    type Done = MySqlDone;
    type Column = MySqlColumn;
    type TypeInfo = MySqlTypeInfo;
    type Value = SqlValue;
}

impl HasValueRef for MySql {
    type Database = MySql;
    type ValueRef = SqlValue;
}

impl HasStatement for MySql {
    type Database = MySql;
    type Statement = MySqlStatement;

    open spec fn statement_sql_spec(stmt: &MySqlStatement) -> Seq<char> {
        stmt.sql@
    }

    fn statement_sql(stmt: &MySqlStatement) -> (r: &String) {
        &stmt.sql
    }

    fn clone_statement(stmt: &MySqlStatement) -> (r: MySqlStatement) {
        MySqlStatement { sql: stmt.sql.clone() }
    }
}

impl HasArguments for MySql {
    type Database = MySql;
    type Arguments = MySqlArguments;
    type ArgumentBuffer = Vec<ArgumentValue>;
    type Erased = ();
    type BufferModel = Seq<BoundValue>;

    open spec fn buffer_model(buf: &Vec<ArgumentValue>) -> Seq<BoundValue> {
        buf@.map_values(|v: ArgumentValue| v@)
    }

    open spec fn buffer_append(pre: Seq<BoundValue>, v: BoundValue, is_null: bool) -> Seq<
        BoundValue,
    > {
        if is_null {
            pre
        } else {
            pre.push(v)
        }
    }

    proof fn buffer_append_null_law(pre: Seq<BoundValue>, v: BoundValue) {
    }

    open spec fn supports_erase() -> bool {
        false
    }

    open spec fn erased_model(e: &()) -> BoundValue {
        BoundValue::Null
    }

    fn erased_null() -> (r: ()) {
        ()
    }
}

impl HasStatementCache for MySql {

}

impl Default for MySqlArguments {
    /// An empty argument list.
    fn default() -> (r: Self)
        ensures
            Arguments::model(&r) == Seq::<BoundValue>::empty(),
    {
        Arguments::empty()
    }
}

impl Arguments for MySqlArguments {
    type Database = MySql;

    closed spec fn model(&self) -> Seq<BoundValue> {
        self.values@.map_values(|v: ArgumentValue| v@)
    }

    fn empty() -> (r: Self) {
        let r = MySqlArguments { values: Vec::new() };
        proof {
            assert(r.model() =~= Seq::<BoundValue>::empty());
        }
        r
    }

    fn reserve(&mut self, additional: usize, _size: usize) {
        self.values.reserve(additional);
    }

    fn add<T>(&mut self, value: T) where T: Encode<MySql> + Type<MySql> {
        proof {
            value.bound_null_law();
        }
        let is_null = value.encode(&mut self.values);
        match is_null {
            IsNull::Yes => {
                self.values.push(ArgumentValue::Null);
            },
            IsNull::No => {},
        }
        proof {
            assert(self.model() =~= old(self).model().push(value.bound_spec()));
        }
    }
}

impl Encode<MySql> for i64 {
    open spec fn bound_spec(&self) -> BoundValue {
        BoundValue::Int(*self)
    }

    open spec fn is_null_spec(&self) -> bool {
        false
    }

    open spec fn produces_spec(&self) -> Option<MySqlTypeInfo> {
        Some(MySqlTypeInfo::BigInt)
    }

    open spec fn size_hint_spec(&self) -> usize {
        8
    }

    proof fn bound_null_law(&self) {
    }

    fn encode_by_ref(&self, buf: &mut Vec<ArgumentValue>) -> (r: IsNull) {
        buf.push(ArgumentValue::Int(*self));
        proof {
            assert(buf@.map_values(|v: ArgumentValue| v@) =~= old(buf)@.map_values(
                |v: ArgumentValue| v@,
            ).push(BoundValue::Int(*self)));
        }
        IsNull::No
    }

    fn produces(&self) -> (r: Option<MySqlTypeInfo>) {
        Some(MySqlTypeInfo::BigInt)
    }

    fn size_hint(&self) -> (r: usize) {
        8
    }

    fn erase(&self) -> (r: ()) {
        ()
    }
}

impl Encode<MySql> for String {
    open spec fn bound_spec(&self) -> BoundValue {
        BoundValue::Text(self@)
    }

    open spec fn is_null_spec(&self) -> bool {
        false
    }

    open spec fn produces_spec(&self) -> Option<MySqlTypeInfo> {
        Some(MySqlTypeInfo::VarChar)
    }

    open spec fn size_hint_spec(&self) -> usize {
        24
    }

    proof fn bound_null_law(&self) {
    }

    fn encode_by_ref(&self, buf: &mut Vec<ArgumentValue>) -> (r: IsNull) {
        buf.push(ArgumentValue::Text(self.clone()));
        proof {
            assert(buf@.map_values(|v: ArgumentValue| v@) =~= old(buf)@.map_values(
                |v: ArgumentValue| v@,
            ).push(BoundValue::Text(self@)));
        }
        IsNull::No
    }

    fn produces(&self) -> (r: Option<MySqlTypeInfo>) {
        Some(MySqlTypeInfo::VarChar)
    }

    fn size_hint(&self) -> (r: usize) {
        24
    }

    fn erase(&self) -> (r: ()) {
        ()
    }
}

impl Type<MySql> for i64 {
    open spec fn type_info_spec() -> MySqlTypeInfo {
        MySqlTypeInfo::BigInt
    }

    fn type_info() -> (r: MySqlTypeInfo) {
        MySqlTypeInfo::BigInt
    }
}

impl Type<MySql> for String {
    open spec fn type_info_spec() -> MySqlTypeInfo {
        MySqlTypeInfo::VarChar
    }

    fn type_info() -> (r: MySqlTypeInfo) {
        MySqlTypeInfo::VarChar
    }
}


/// An integer decodes from the first cell of a row.
impl FromRow<MySqlRow> for i64 {
    open spec fn from_row_spec(row: &MySqlRow) -> Result<i64, Error> {
        if row@.len() >= 1 {
            match row@[0] {
                BoundValue::Int(i) => Ok(i),
                _ => Err(Error::Decode),
            }
        } else {
            Err(Error::Decode)
        }
    }

    fn from_row(row: &MySqlRow) -> (r: Result<i64, Error>) {
        if row.values.len() >= 1 {
            match &row.values[0] {
                SqlValue::Int(i) => Ok(*i),
                _ => Err(Error::Decode),
            }
        } else {
            Err(Error::Decode)
        }
    }
}

} // verus!
