use sqlx_core::any::AnyArguments;
use sqlx_core::arguments::{ArgumentValue, Arguments};
use sqlx_core::encode::{Encode, IsNull};
use sqlx_core::mssql::MssqlArguments;
use sqlx_core::mysql::MySqlArguments;
use sqlx_core::postgres::PgArguments;
use sqlx_core::sqlite::{Sqlite, SqliteArguments, SqliteTypeInfo};

fn opaque_list() -> AnyArguments {
    let mut args: AnyArguments = Arguments::empty();
    args.add(5i64);
    args.add(String::from("hi"));
    args.add(Option::<i64>::None);
    args.add(Some(-7i64));
    args
}

fn assert_replayed(len: usize, at: impl Fn(usize) -> ArgumentValue) {
    assert_eq!(len, 4);
    assert_eq!(at(0), ArgumentValue::Int(5));
    assert_eq!(at(1), ArgumentValue::Text(String::from("hi")));
    assert_eq!(at(2), ArgumentValue::Null);
    assert_eq!(at(3), ArgumentValue::Int(-7));
}

#[test]
fn any_to_sqlite_keeps_count_and_order() {
    let native = SqliteArguments::from(opaque_list());
    assert_replayed(native.len(), |i| native.value_at(i).clone());
}

#[test]
fn any_to_postgres_keeps_count_and_order() {
    let native = PgArguments::from(opaque_list());
    assert_replayed(native.len(), |i| native.value_at(i).clone());
}

#[test]
fn any_to_mysql_keeps_count_and_order() {
    let native = MySqlArguments::from(opaque_list());
    assert_replayed(native.len(), |i| native.value_at(i).clone());
}

#[test]
fn any_to_mssql_keeps_count_and_order() {
    let native = MssqlArguments::from(opaque_list());
    assert_replayed(native.len(), |i| native.value_at(i).clone());
}

#[test]
fn option_present_binds_like_inner_value() {
    let mut plain: SqliteArguments = Arguments::empty();
    plain.add(7i64);
    plain.add(String::from("abc"));
    let mut optional: SqliteArguments = Arguments::empty();
    optional.add(Some(7i64));
    optional.add(Some(String::from("abc")));
    assert_eq!(plain.wire_bytes(), optional.wire_bytes());
    assert_eq!(plain.len(), optional.len());
    assert_eq!(plain.value_at(0), optional.value_at(0));
    assert_eq!(plain.value_at(1), optional.value_at(1));
}

#[test]
fn option_produces_matches_inner() {
    let produced_inner = <i64 as Encode<Sqlite>>::produces(&7i64);
    let produced_some = <Option<i64> as Encode<Sqlite>>::produces(&Some(7i64));
    assert_eq!(produced_inner, produced_some);
    let produced_none = <Option<i64> as Encode<Sqlite>>::produces(&Option::<i64>::None);
    assert_eq!(produced_none, Some(SqliteTypeInfo::Integer));
}

#[test]
fn option_absent_writes_nothing_and_reports_null() {
    let mut buf: Vec<ArgumentValue> = Vec::new();
    let outcome = <Option<i64> as Encode<Sqlite>>::encode_by_ref(&Option::<i64>::None, &mut buf);
    assert!(matches!(outcome, IsNull::Yes));
    assert!(buf.is_empty());

    let mut args: SqliteArguments = Arguments::empty();
    args.add(Option::<i64>::None);
    assert_eq!(args.len(), 1);
    assert_eq!(args.value_at(0), &ArgumentValue::Null);
    assert!(args.wire_bytes().is_empty());
}

#[test]
fn reserve_never_changes_encoded_content() {
    let mut plain: SqliteArguments = Arguments::empty();
    plain.add(1i64);
    plain.add(String::from("x"));

    let mut hinted: SqliteArguments = Arguments::empty();
    hinted.reserve(32, 4096);
    hinted.add(1i64);
    hinted.reserve(7, 9);
    hinted.add(String::from("x"));

    assert_eq!(plain.len(), hinted.len());
    assert_eq!(plain.value_at(0), hinted.value_at(0));
    assert_eq!(plain.value_at(1), hinted.value_at(1));
    assert_eq!(plain.wire_bytes(), hinted.wire_bytes());
}

#[test]
fn erased_capture_reports_size_hints() {
    let mut any: AnyArguments = Arguments::empty();
    any.reserve(3, 64);
    any.add(1i64);
    assert_eq!(any.len(), 1);
    assert_eq!(<i64 as Encode<Sqlite>>::size_hint(&1i64), 8);
    assert_eq!(<Option<i64> as Encode<Sqlite>>::size_hint(&Option::<i64>::None), 0);
}
