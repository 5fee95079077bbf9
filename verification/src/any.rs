use vstd::prelude::*;
use vstd::pervasive::unreached;

use crate::arguments::{Arguments, BoundValue};
use crate::database::{Database, HasArguments, HasStatement, HasStatementCache, HasValueRef};
use crate::encode::{Encode, IsNull};
use crate::error::Error;
use crate::from_row::FromRow;
use crate::mssql::{MssqlArguments, MssqlColumn, MssqlConnection, MssqlDone, MssqlRow, MssqlTransactionManager};
use crate::mysql::{MySqlArguments, MySqlColumn, MySqlConnection, MySqlDone, MySqlRow, MySqlTransactionManager};
use crate::postgres::{PgArguments, PgColumn, PgConnection, PgDone, PgRow, PgTransactionManager};
use crate::sqlite::{SqliteArguments, SqliteColumn, SqliteConnection, SqliteDone, SqliteRow, SqliteTransactionManager};
use crate::types::{SqlValue, Type};

verus! {

/// Opaque database driver.  Capable of being used in place of any concrete
/// driver of this crate; the actual backend is selected at runtime, at
/// connection time, while binding still goes through the static encoding
/// machinery.
#[derive(Clone, Copy, Debug)]
pub struct Any;

/// Which concrete backend an opaque value has resolved to.
#[derive(Clone, Copy, PartialEq, Eq, Structural, Debug)]
pub enum AnyKind {
    Postgres,
    MySql,
    Sqlite,
    Mssql,
}

/// The type-erased encoder: one bound value captured together with its
/// encoding behaviour, reduced to the single capability "encode yourself into
/// an opaque argument buffer".  The world of encodable values is closed, so
/// the capture is a sum over it rather than a boxed capability object.
#[derive(Clone, PartialEq, Eq, Debug)]
pub enum AnyValueKind {
    /// An absent value.
    Null,
    /// A 64-bit signed integer.
    Int(i64),
    /// A text.
    Text(String),
}

impl View for AnyValueKind {
    type V = BoundValue;

    open spec fn view(&self) -> BoundValue {
        match self {
            AnyValueKind::Null => BoundValue::Null,
            AnyValueKind::Int(i) => BoundValue::Int(*i),
            AnyValueKind::Text(s) => BoundValue::Text(s@),
        }
    }
}

/// A live connection of whichever backend was selected.
pub enum AnyConnection {
    Postgres(PgConnection),
    MySql(MySqlConnection),
    Sqlite(SqliteConnection),
    Mssql(MssqlConnection),
}

/// The transaction manager of whichever backend was selected.
pub enum AnyTransactionManager {
    Postgres(PgTransactionManager),
    MySql(MySqlTransactionManager),
    Sqlite(SqliteTransactionManager),
    Mssql(MssqlTransactionManager),
}

/// One row of whichever backend was selected.
#[derive(Clone, PartialEq, Eq, Debug)]
pub enum AnyRow {
    Postgres(PgRow),
    MySql(MySqlRow),
    Sqlite(SqliteRow),
    Mssql(MssqlRow),
}

/// The completion summary of whichever backend was selected.
#[derive(Clone, Copy, PartialEq, Eq, Structural, Debug)]
pub enum AnyDone {
    Postgres(PgDone),
    MySql(MySqlDone),
    Sqlite(SqliteDone),
    Mssql(MssqlDone),
}

/// Column metadata of whichever backend was selected.
#[derive(Clone, PartialEq, Eq, Debug)]
pub enum AnyColumn {
    Postgres(PgColumn),
    MySql(MySqlColumn),
    Sqlite(SqliteColumn),
    Mssql(MssqlColumn),
}

/// The nominal type a bind against the opaque driver announces.  This is not a
/// sum over the backends: the static descriptor must exist before any backend
/// has been selected.
#[derive(Clone, Copy, PartialEq, Eq, Structural, Debug)]
pub enum AnyTypeInfo {
    Integer,
    Text,
}

/// A prepared statement handle of the opaque driver.
#[derive(Clone, PartialEq, Eq, Debug)]
pub struct AnyStatement {
    /// The SQL text the statement was prepared from.
    pub sql: String,
}

/// The opaque argument list: the type-erased encoders, in bind order.  No
/// encoding has happened yet when a value sits here; it happens during the
/// conversion into a concrete backend's native list.
pub struct AnyArguments {
    values: Vec<AnyValueKind>,
}

/// The opaque argument buffer: a closed tagged union with exactly one variant
/// per backend compiled into the build.  A buffer is always constructed
/// pre-tagged with the conversion target's empty native list, and the active
/// variant never changes during a conversion.
pub struct AnyArgumentBuffer(pub(crate) AnyArgumentBufferKind);

pub(crate) enum AnyArgumentBufferKind {
    Postgres(PgArguments),
    MySql(MySqlArguments),
    Sqlite(SqliteArguments),
    Mssql(MssqlArguments),
}

/// The model of an opaque argument buffer: the backend it is tagged with, and
/// the values its native list holds, in order.
pub struct AnyBufferModel {
    pub backend: AnyKind,
    pub values: Seq<BoundValue>,
}

impl Database for Any {
    type Connection = AnyConnection;
    type TransactionManager = AnyTransactionManager;
    type Row = AnyRow;
    type Done = AnyDone;
    type Column = AnyColumn;
    type TypeInfo = AnyTypeInfo;
    type Value = SqlValue;
}

impl HasValueRef for Any {
    type Database = Any;
    type ValueRef = SqlValue;
}

impl HasStatement for Any {
    type Database = Any;
    type Statement = AnyStatement;

    open spec fn statement_sql_spec(stmt: &AnyStatement) -> Seq<char> {
        stmt.sql@
    }

    fn statement_sql(stmt: &AnyStatement) -> (r: &String) {
        &stmt.sql
    }

    fn clone_statement(stmt: &AnyStatement) -> (r: AnyStatement) {
        AnyStatement { sql: stmt.sql.clone() }
    }
}

impl HasArguments for Any {
    type Database = Any;
    type Arguments = AnyArguments;
    type ArgumentBuffer = AnyArgumentBuffer;
    type Erased = AnyValueKind;
    type BufferModel = AnyBufferModel;

    closed spec fn buffer_model(buf: &AnyArgumentBuffer) -> AnyBufferModel {
        match buf.0 {
            AnyArgumentBufferKind::Postgres(a) => AnyBufferModel {
                backend: AnyKind::Postgres,
                values: Arguments::model(&a),
            },
            AnyArgumentBufferKind::MySql(a) => AnyBufferModel {
                backend: AnyKind::MySql,
                values: Arguments::model(&a),
            },
            AnyArgumentBufferKind::Sqlite(a) => AnyBufferModel {
                backend: AnyKind::Sqlite,
                values: Arguments::model(&a),
            },
            AnyArgumentBufferKind::Mssql(a) => AnyBufferModel {
                backend: AnyKind::Mssql,
                values: Arguments::model(&a),
            },
        }
    }

    open spec fn buffer_append(pre: AnyBufferModel, v: BoundValue, is_null: bool) -> AnyBufferModel {
        if is_null {
            pre
        } else {
            AnyBufferModel { backend: pre.backend, values: pre.values.push(v) }
        }
    }

    proof fn buffer_append_null_law(pre: AnyBufferModel, v: BoundValue) {
    }

    open spec fn supports_erase() -> bool {
        true
    }

    open spec fn erased_model(e: &AnyValueKind) -> BoundValue {
        e@
    }

    fn erased_null() -> (r: AnyValueKind) {
        AnyValueKind::Null
    }
}

// This _may_ be true, depending on the selected backend.
impl HasStatementCache for Any {

}

impl Default for AnyArguments {
    /// An empty opaque argument list.
    fn default() -> (r: Self)
        ensures
            Arguments::model(&r) == Seq::<BoundValue>::empty(),
    {
        Arguments::empty()
    }
}

impl Arguments for AnyArguments {
    type Database = Any;

    closed spec fn model(&self) -> Seq<BoundValue> {
        self.values@.map_values(|v: AnyValueKind| v@)
    }

    fn empty() -> (r: Self) {
        let r = AnyArguments { values: Vec::new() };
        proof {
            assert(r.model() =~= Seq::<BoundValue>::empty());
        }
        r
    }

    fn reserve(&mut self, additional: usize, _size: usize) {
        self.values.reserve(additional);
    }

    fn add<T>(&mut self, value: T) where T: Encode<Any> + Type<Any> {
        let erased = value.erase();
        self.values.push(erased);
        proof {
            assert(self.model() =~= old(self).model().push(value.bound_spec()));
        }
    }
}

impl AnyArguments {
    /// How many values are bound.
    pub fn len(&self) -> (r: usize)
        ensures
            r == Arguments::model(self).len(),
    {
        self.values.len()
    }

    /// The erased capture at position `i`, in bind order.
    pub fn value_at(&self, i: usize) -> (r: &AnyValueKind)
        requires
            i < Arguments::model(self).len(),
        ensures
            r@ == Arguments::model(self)[i as int],
    {
        &self.values[i]
    }
}

/// The type-erased encoder encodes itself by re-entering the double dispatch:
/// it matches the buffer's active variant and hands the captured value to that
/// backend's own argument list.  The native `add` records the slot — a null
/// one included — so the capture never reports "null, nothing written", and
/// the conversion below may discard the per-value outcome without losing a
/// slot.
impl Encode<Any> for AnyValueKind {
    open spec fn bound_spec(&self) -> BoundValue {
        self@
    }

    open spec fn is_null_spec(&self) -> bool {
        false
    }

    open spec fn produces_spec(&self) -> Option<AnyTypeInfo> {
        match self {
            AnyValueKind::Null => None,
            AnyValueKind::Int(_) => Some(AnyTypeInfo::Integer),
            AnyValueKind::Text(_) => Some(AnyTypeInfo::Text),
        }
    }

    open spec fn size_hint_spec(&self) -> usize {
        match self {
            AnyValueKind::Null => 0,
            AnyValueKind::Int(_) => 8,
            AnyValueKind::Text(_) => 24,
        }
    }

    proof fn bound_null_law(&self) {
    }

    fn encode_by_ref(&self, buf: &mut AnyArgumentBuffer) -> (r: IsNull) {
        match &mut buf.0 {
            AnyArgumentBufferKind::Postgres(args) => {
                match self {
                    AnyValueKind::Null => {
                        let absent: Option<i64> = None;
                        args.add(absent);
                    },
                    AnyValueKind::Int(i) => args.add(*i),
                    AnyValueKind::Text(s) => args.add(s.clone()),
                }
            },
            AnyArgumentBufferKind::MySql(args) => {
                match self {
                    AnyValueKind::Null => {
                        let absent: Option<i64> = None;
                        args.add(absent);
                    },
                    AnyValueKind::Int(i) => args.add(*i),
                    AnyValueKind::Text(s) => args.add(s.clone()),
                }
            },
            AnyArgumentBufferKind::Sqlite(args) => {
                match self {
                    AnyValueKind::Null => {
                        let absent: Option<i64> = None;
                        args.add(absent);
                    },
                    AnyValueKind::Int(i) => args.add(*i),
                    AnyValueKind::Text(s) => args.add(s.clone()),
                }
            },
            AnyArgumentBufferKind::Mssql(args) => {
                match self {
                    AnyValueKind::Null => {
                        let absent: Option<i64> = None;
                        args.add(absent);
                    },
                    AnyValueKind::Int(i) => args.add(*i),
                    AnyValueKind::Text(s) => args.add(s.clone()),
                }
            },
        }
        IsNull::No
    }

    fn produces(&self) -> (r: Option<AnyTypeInfo>) {
        match self {
            AnyValueKind::Null => None,
            AnyValueKind::Int(_) => Some(AnyTypeInfo::Integer),
            AnyValueKind::Text(_) => Some(AnyTypeInfo::Text),
        }
    }

    fn size_hint(&self) -> (r: usize) {
        match self {
            AnyValueKind::Null => 0,
            AnyValueKind::Int(_) => 8,
            AnyValueKind::Text(_) => 24,
        }
    }

    fn erase(&self) -> (r: AnyValueKind) {
        match self {
            AnyValueKind::Null => AnyValueKind::Null,
            AnyValueKind::Int(i) => AnyValueKind::Int(*i),
            AnyValueKind::Text(s) => AnyValueKind::Text(s.clone()),
        }
    }
}

impl Encode<Any> for i64 {
    open spec fn bound_spec(&self) -> BoundValue {
        BoundValue::Int(*self)
    }

    open spec fn is_null_spec(&self) -> bool {
        false
    }

    open spec fn produces_spec(&self) -> Option<AnyTypeInfo> {
        Some(AnyTypeInfo::Integer)
    }

    open spec fn size_hint_spec(&self) -> usize {
        8
    }

    proof fn bound_null_law(&self) {
    }

    fn encode_by_ref(&self, buf: &mut AnyArgumentBuffer) -> (r: IsNull) {
        match &mut buf.0 {
            AnyArgumentBufferKind::Postgres(args) => args.add(*self),
            AnyArgumentBufferKind::MySql(args) => args.add(*self),
            AnyArgumentBufferKind::Sqlite(args) => args.add(*self),
            AnyArgumentBufferKind::Mssql(args) => args.add(*self),
        }
        IsNull::No
    }

    fn produces(&self) -> (r: Option<AnyTypeInfo>) {
        Some(AnyTypeInfo::Integer)
    }

    fn size_hint(&self) -> (r: usize) {
        8
    }

    fn erase(&self) -> (r: AnyValueKind) {
        AnyValueKind::Int(*self)
    }
}

impl Encode<Any> for String {
    open spec fn bound_spec(&self) -> BoundValue {
        BoundValue::Text(self@)
    }

    open spec fn is_null_spec(&self) -> bool {
        false
    }

    open spec fn produces_spec(&self) -> Option<AnyTypeInfo> {
        Some(AnyTypeInfo::Text)
    }

    open spec fn size_hint_spec(&self) -> usize {
        24
    }

    proof fn bound_null_law(&self) {
    }

    fn encode_by_ref(&self, buf: &mut AnyArgumentBuffer) -> (r: IsNull) {
        match &mut buf.0 {
            AnyArgumentBufferKind::Postgres(args) => args.add(self.clone()),
            AnyArgumentBufferKind::MySql(args) => args.add(self.clone()),
            AnyArgumentBufferKind::Sqlite(args) => args.add(self.clone()),
            AnyArgumentBufferKind::Mssql(args) => args.add(self.clone()),
        }
        IsNull::No
    }

    fn produces(&self) -> (r: Option<AnyTypeInfo>) {
        Some(AnyTypeInfo::Text)
    }

    fn size_hint(&self) -> (r: usize) {
        24
    }

    fn erase(&self) -> (r: AnyValueKind) {
        AnyValueKind::Text(self.clone())
    }
}

impl Type<Any> for i64 {
    open spec fn type_info_spec() -> AnyTypeInfo {
        AnyTypeInfo::Integer
    }

    fn type_info() -> (r: AnyTypeInfo) {
        AnyTypeInfo::Integer
    }
}

impl Type<Any> for String {
    open spec fn type_info_spec() -> AnyTypeInfo {
        AnyTypeInfo::Text
    }

    fn type_info() -> (r: AnyTypeInfo) {
        AnyTypeInfo::Text
    }
}

impl SqliteArguments {
    /// Replays an opaque argument list into a native Sqlite list: the buffer
    /// is pre-tagged with an empty Sqlite list, every stored encoder runs
    /// against it in bind order, and the native list is unwrapped back out.
    /// The per-value outcome is discarded on purpose: the native `add` has
    /// already recorded the slot, null or not, so nothing is lost — the
    /// parameters and their order are preserved exactly.
    pub fn from(args: AnyArguments) -> (r: SqliteArguments)
        ensures
            Arguments::model(&r) == Arguments::model(&args),
    {
        let mut buf = AnyArgumentBuffer(AnyArgumentBufferKind::Sqlite(Arguments::empty()));
        let n: usize = args.values.len();
        let mut i: usize = 0;
        proof {
            assert(Arguments::model(&args).take(0) =~= Seq::<BoundValue>::empty());
        }
        while i < n
            invariant
                i <= n,
                n == args.values.len(),
                Any::buffer_model(&buf) == (AnyBufferModel {
                    backend: AnyKind::Sqlite,
                    values: Arguments::model(&args).take(i as int),
                }),
            decreases n - i,
        {
            let _ = args.values[i].encode_by_ref(&mut buf);
            proof {
                assert(Arguments::model(&args).take(i + 1) =~= Arguments::model(&args).take(
                    i as int,
                ).push(args.values@[i as int]@));
            }
            i = i + 1;
        }
        proof {
            assert(Arguments::model(&args).take(n as int) =~= Arguments::model(&args));
        }
        match buf.0 {
            AnyArgumentBufferKind::Sqlite(native) => native,
            // the buffer variant must equal the conversion target: it was
            // tagged before any encoder ran, and the tag never changes, so
            // every other variant is unreachable by construction.
            _ => unreached(),
        }
    }
}

impl PgArguments {
    /// Replays an opaque argument list into a native PostgreSQL list; see
    /// `SqliteArguments::from` for the shape of the replay.
    pub fn from(args: AnyArguments) -> (r: PgArguments)
        ensures
            Arguments::model(&r) == Arguments::model(&args),
    {
        let mut buf = AnyArgumentBuffer(AnyArgumentBufferKind::Postgres(Arguments::empty()));
        let n: usize = args.values.len();
        let mut i: usize = 0;
        proof {
            assert(Arguments::model(&args).take(0) =~= Seq::<BoundValue>::empty());
        }
        while i < n
            invariant
                i <= n,
                n == args.values.len(),
                Any::buffer_model(&buf) == (AnyBufferModel {
                    backend: AnyKind::Postgres,
                    values: Arguments::model(&args).take(i as int),
                }),
            decreases n - i,
        {
            let _ = args.values[i].encode_by_ref(&mut buf);
            proof {
                assert(Arguments::model(&args).take(i + 1) =~= Arguments::model(&args).take(
                    i as int,
                ).push(args.values@[i as int]@));
            }
            i = i + 1;
        }
        proof {
            assert(Arguments::model(&args).take(n as int) =~= Arguments::model(&args));
        }
        match buf.0 {
            AnyArgumentBufferKind::Postgres(native) => native,
            // the buffer variant must equal the conversion target; see above.
            _ => unreached(),
        }
    }
}

impl MySqlArguments {
    /// Replays an opaque argument list into a native MySQL list; see
    /// `SqliteArguments::from` for the shape of the replay.
    pub fn from(args: AnyArguments) -> (r: MySqlArguments)
        ensures
            Arguments::model(&r) == Arguments::model(&args),
    {
        let mut buf = AnyArgumentBuffer(AnyArgumentBufferKind::MySql(Arguments::empty()));
        let n: usize = args.values.len();
        let mut i: usize = 0;
        proof {
            assert(Arguments::model(&args).take(0) =~= Seq::<BoundValue>::empty());
        }
        while i < n
            invariant
                i <= n,
                n == args.values.len(),
                Any::buffer_model(&buf) == (AnyBufferModel {
                    backend: AnyKind::MySql,
                    values: Arguments::model(&args).take(i as int),
                }),
            decreases n - i,
        {
            let _ = args.values[i].encode_by_ref(&mut buf);
            proof {
                assert(Arguments::model(&args).take(i + 1) =~= Arguments::model(&args).take(
                    i as int,
                ).push(args.values@[i as int]@));
            }
            i = i + 1;
        }
        proof {
            assert(Arguments::model(&args).take(n as int) =~= Arguments::model(&args));
        }
        match buf.0 {
            AnyArgumentBufferKind::MySql(native) => native,
            // the buffer variant must equal the conversion target; see above.
            _ => unreached(),
        }
    }
}

impl MssqlArguments {
    /// Replays an opaque argument list into a native MSSQL list; see
    /// `SqliteArguments::from` for the shape of the replay.
    pub fn from(args: AnyArguments) -> (r: MssqlArguments)
        ensures
            Arguments::model(&r) == Arguments::model(&args),
    {
        let mut buf = AnyArgumentBuffer(AnyArgumentBufferKind::Mssql(Arguments::empty()));
        let n: usize = args.values.len();
        let mut i: usize = 0;
        proof {
            assert(Arguments::model(&args).take(0) =~= Seq::<BoundValue>::empty());
        }
        while i < n
            invariant
                i <= n,
                n == args.values.len(),
                Any::buffer_model(&buf) == (AnyBufferModel {
                    backend: AnyKind::Mssql,
                    values: Arguments::model(&args).take(i as int),
                }),
            decreases n - i,
        {
            let _ = args.values[i].encode_by_ref(&mut buf);
            proof {
                assert(Arguments::model(&args).take(i + 1) =~= Arguments::model(&args).take(
                    i as int,
                ).push(args.values@[i as int]@));
            }
            i = i + 1;
        }
        proof {
            assert(Arguments::model(&args).take(n as int) =~= Arguments::model(&args));
        }
        match buf.0 {
            AnyArgumentBufferKind::Mssql(native) => native,
            // the buffer variant must equal the conversion target; see above.
            _ => unreached(),
        }
    }
}


/// An integer decodes from whichever backend's row arrived, by that backend's
/// own rule.
impl FromRow<AnyRow> for i64 {
    open spec fn from_row_spec(row: &AnyRow) -> Result<i64, Error> {
        match row {
            AnyRow::Postgres(r) => <i64 as FromRow<PgRow>>::from_row_spec(r),
            AnyRow::MySql(r) => <i64 as FromRow<MySqlRow>>::from_row_spec(r),
            AnyRow::Sqlite(r) => <i64 as FromRow<SqliteRow>>::from_row_spec(r),
            AnyRow::Mssql(r) => <i64 as FromRow<MssqlRow>>::from_row_spec(r),
        }
    }

    fn from_row(row: &AnyRow) -> (r: Result<i64, Error>) {
        match row {
            AnyRow::Postgres(r) => <i64 as FromRow<PgRow>>::from_row(r),
            AnyRow::MySql(r) => <i64 as FromRow<MySqlRow>>::from_row(r),
            AnyRow::Sqlite(r) => <i64 as FromRow<SqliteRow>>::from_row(r),
            AnyRow::Mssql(r) => <i64 as FromRow<MssqlRow>>::from_row(r),
        }
    }
}

} // verus!
