use sqlx_core::any::{Any, AnyArguments, AnyStatement, AnyValueKind};
use sqlx_core::arguments::{ArgumentValue, Arguments};
use sqlx_core::either::Either;
use sqlx_core::error::Error;
use sqlx_core::executor::Execute;
use sqlx_core::from_row::FromRow;
use sqlx_core::query::query;
use sqlx_core::query_as::{query_as, query_statement_as, query_statement_as_with};
use sqlx_core::query_scalar::{query_scalar, query_statement_scalar};
use sqlx_core::sqlite::{Sqlite, SqliteArguments, SqliteRow, SqliteStatement};
use sqlx_core::types::SqlValue;

#[test]
fn bind_appends_in_call_order() {
    let mut q = query_as::<Sqlite, i64>("SELECT n FROM t WHERE a = ? AND b = ?")
        .bind(9i64)
        .bind(String::from("x"));
    assert_eq!(q.sql().as_str(), "SELECT n FROM t WHERE a = ? AND b = ?");
    assert!(q.persistent());
    let args: SqliteArguments = q.take_arguments().unwrap();
    assert_eq!(args.len(), 2);
    assert_eq!(args.value_at(0), &ArgumentValue::Int(9));
    assert_eq!(args.value_at(1), &ArgumentValue::Text(String::from("x")));
    assert!(q.take_arguments().is_none());
}

#[test]
fn bind_against_the_opaque_family_defers_encoding() {
    let mut q = query::<Any>("SELECT n FROM t WHERE a = ?").bind(11i64);
    let args: AnyArguments = q.take_arguments().unwrap();
    assert_eq!(args.len(), 1);
    assert_eq!(args.value_at(0), &AnyValueKind::Int(11));
    let native = SqliteArguments::from(args);
    assert_eq!(native.value_at(0), &ArgumentValue::Int(11));
}

#[test]
fn statement_queries_carry_the_prepared_sql() {
    let stmt = SqliteStatement { sql: String::from("SELECT n FROM t") };
    let q = query_statement_as::<Sqlite, i64>(&stmt);
    assert_eq!(q.sql().as_str(), "SELECT n FROM t");
    assert!(q.statement().is_some());

    let mut args: SqliteArguments = Arguments::empty();
    args.add(1i64);
    let mut q2 = query_statement_as_with::<Sqlite, i64, SqliteArguments>(&stmt, args);
    assert_eq!(q2.sql().as_str(), "SELECT n FROM t");
    let taken = q2.take_arguments().unwrap();
    assert_eq!(taken.value_at(0), &ArgumentValue::Int(1));

    let q3 = query_statement_scalar::<Sqlite, i64>(&stmt);
    assert_eq!(q3.sql().as_str(), "SELECT n FROM t");
}

#[test]
fn scalar_builder_exposes_the_same_descriptor() {
    let q = query_scalar::<Sqlite, i64>("SELECT 1");
    assert_eq!(q.sql().as_str(), "SELECT 1");
    assert!(q.statement().is_none());
    assert!(q.persistent());
}

#[test]
fn opaque_statement_holds_sql() {
    let stmt = AnyStatement { sql: String::from("SELECT 1") };
    let q = query::<Any>("SELECT 1");
    assert_eq!(q.sql().as_str(), "SELECT 1");
    assert_eq!(stmt.sql, "SELECT 1");
}

#[test]
fn rows_decode_from_the_first_cell() {
    let row = SqliteRow { values: vec![SqlValue::Int(5), SqlValue::Text(String::from("x"))] };
    assert_eq!(i64::from_row(&row), Ok(5));
    assert_eq!(<(i64,)>::from_row(&row), Ok((5,)));
    let empty = SqliteRow { values: Vec::new() };
    assert_eq!(i64::from_row(&empty), Err(Error::Decode));
}

#[test]
fn either_projections() {
    let l: Either<i32, i64> = Either::Left(1);
    let r: Either<i32, i64> = Either::Right(2);
    assert_eq!(l.clone().left(), Some(1));
    assert_eq!(l.right(), None);
    assert_eq!(r.clone().right(), Some(2));
    assert_eq!(r.left(), None);
}

#[test]
fn error_messages_name_the_failure() {
    assert!(Error::RowNotFound.message().contains("no rows"));
    assert!(Error::Decode.message().contains("decoding"));
    assert!(Error::Protocol.message().contains("transport"));
}
