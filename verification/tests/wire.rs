use sqlx_core::arguments::Arguments;
use sqlx_core::mssql::MssqlArguments;
use sqlx_core::mysql::MySqlArguments;
use sqlx_core::postgres::PgArguments;
use sqlx_core::sqlite::SqliteArguments;

#[test]
fn sqlite_renders_integers_little_endian() {
    let mut args: SqliteArguments = Arguments::empty();
    args.add(65i64);
    assert_eq!(args.wire_bytes(), vec![65, 0, 0, 0, 0, 0, 0, 0]);
}

#[test]
fn sqlite_renders_negative_integers_two_complement() {
    let mut args: SqliteArguments = Arguments::empty();
    args.add(-1i64);
    assert_eq!(args.wire_bytes(), vec![255u8; 8]);
}

#[test]
fn sqlite_renders_text_as_characters() {
    let mut args: SqliteArguments = Arguments::empty();
    args.add(String::from("AB"));
    assert_eq!(args.wire_bytes(), vec![65, 0, 0, 0, 66, 0, 0, 0]);
}

#[test]
fn postgres_renders_integers_big_endian() {
    let mut args: PgArguments = Arguments::empty();
    args.add(65i64);
    assert_eq!(args.wire_bytes(), vec![0, 0, 0, 0, 0, 0, 0, 65]);
}

#[test]
fn postgres_renders_text_length_prefixed_big_endian() {
    let mut args: PgArguments = Arguments::empty();
    args.add(String::from("A"));
    assert_eq!(args.wire_bytes(), vec![0, 0, 0, 0, 0, 0, 0, 1, 0, 0, 0, 65]);
}

#[test]
fn mysql_renders_text_length_prefixed_little_endian() {
    let mut args: MySqlArguments = Arguments::empty();
    args.add(65i64);
    args.add(String::from("A"));
    assert_eq!(
        args.wire_bytes(),
        vec![65, 0, 0, 0, 0, 0, 0, 0, 1, 0, 0, 0, 0, 0, 0, 0, 65, 0, 0, 0],
    );
}

#[test]
fn mssql_renders_big_endian_without_prefix() {
    let mut args: MssqlArguments = Arguments::empty();
    args.add(65i64);
    args.add(String::from("A"));
    assert_eq!(args.wire_bytes(), vec![0, 0, 0, 0, 0, 0, 0, 65, 0, 0, 0, 65]);
}

#[test]
fn null_contributes_no_bytes_between_slots() {
    let mut args: SqliteArguments = Arguments::empty();
    args.add(1i64);
    args.add(Option::<i64>::None);
    args.add(2i64);
    assert_eq!(
        args.wire_bytes(),
        vec![1, 0, 0, 0, 0, 0, 0, 0, 2, 0, 0, 0, 0, 0, 0, 0],
    );
    assert_eq!(args.len(), 3);
}
