use sqlx_core::any::{Any, AnyDone, AnyRow};
use sqlx_core::either::Either;
use sqlx_core::error::Error;
use sqlx_core::executor::StubExecutor;
use sqlx_core::query_as::query_as;
use sqlx_core::query_scalar::query_scalar;
use sqlx_core::sqlite::{Sqlite, SqliteDone, SqliteRow};
use sqlx_core::types::SqlValue;

type Item = Result<Either<SqliteDone, SqliteRow>, Error>;

fn int_row(v: i64) -> SqliteRow {
    SqliteRow { values: vec![SqlValue::Int(v)] }
}

fn text_row(s: &str) -> SqliteRow {
    SqliteRow { values: vec![SqlValue::Text(String::from(s))] }
}

fn done(n: u64) -> SqliteDone {
    SqliteDone { rows_affected: n }
}

fn stub(items: Vec<Item>) -> StubExecutor<Sqlite> {
    StubExecutor { items }
}

#[test]
fn zero_rows_fetch_optional_is_empty() {
    let items: Vec<Item> = vec![Ok(Either::Left(done(3)))];
    let r = query_as::<Sqlite, i64>("DELETE FROM t").fetch_optional(stub(items));
    assert_eq!(r, Ok(None));
}

#[test]
fn zero_rows_fetch_one_is_row_not_found() {
    let items: Vec<Item> = vec![Ok(Either::Left(done(3)))];
    let r = query_as::<Sqlite, i64>("DELETE FROM t").fetch_one(stub(items));
    assert_eq!(r, Err(Error::RowNotFound));
}

#[test]
fn one_row_fetch_optional_yields_it_decoded() {
    let items: Vec<Item> = vec![Ok(Either::Right(int_row(42))), Ok(Either::Left(done(1)))];
    let r = query_as::<Sqlite, i64>("SELECT n FROM t").fetch_optional(stub(items));
    assert_eq!(r, Ok(Some(42)));
}

#[test]
fn one_row_fetch_one_yields_it_decoded() {
    let items: Vec<Item> = vec![Ok(Either::Right(int_row(42))), Ok(Either::Left(done(1)))];
    let r = query_as::<Sqlite, i64>("SELECT n FROM t").fetch_one(stub(items));
    assert_eq!(r, Ok(42));
}

#[test]
fn many_rows_fetch_one_takes_the_first_only() {
    // everything after the first row, even a failure, is never examined
    let items: Vec<Item> = vec![
        Ok(Either::Right(int_row(1))),
        Ok(Either::Right(int_row(2))),
        Err(Error::Protocol),
    ];
    let r = query_as::<Sqlite, i64>("SELECT n FROM t").fetch_one(stub(items));
    assert_eq!(r, Ok(1));
}

#[test]
fn fetch_all_concatenates_statements_in_order() {
    let first: Vec<Item> = vec![
        Ok(Either::Right(int_row(1))),
        Ok(Either::Right(int_row(2))),
        Ok(Either::Left(done(2))),
    ];
    let second: Vec<Item> = vec![Ok(Either::Right(int_row(3))), Ok(Either::Left(done(1)))];

    let mut whole = first.clone();
    whole.extend(second.clone());

    let all = query_as::<Sqlite, i64>("SELECT a; SELECT b").fetch_all(stub(whole));
    let part1 = query_as::<Sqlite, i64>("SELECT a").fetch_all(stub(first));
    let part2 = query_as::<Sqlite, i64>("SELECT b").fetch_all(stub(second));

    assert_eq!(all, Ok(vec![1, 2, 3]));
    let mut joined = part1.unwrap();
    joined.extend(part2.unwrap());
    assert_eq!(all, Ok(joined));
}

#[test]
fn fetch_keeps_rows_and_drops_completion_markers() {
    let items: Vec<Item> = vec![
        Ok(Either::Right(int_row(1))),
        Ok(Either::Left(done(1))),
        Ok(Either::Right(int_row(2))),
        Ok(Either::Left(done(1))),
    ];
    let r = query_as::<Sqlite, i64>("SELECT a; SELECT b").fetch(stub(items));
    assert_eq!(r, vec![Ok(1), Ok(2)]);
}

#[test]
fn fetch_many_passes_completion_markers_through() {
    let items: Vec<Item> = vec![
        Ok(Either::Right(int_row(1))),
        Ok(Either::Left(done(7))),
    ];
    let r = query_as::<Sqlite, i64>("SELECT n FROM t").fetch_many(stub(items));
    assert_eq!(r, vec![Ok(Either::Right(1)), Ok(Either::Left(done(7)))]);
}

#[test]
fn decode_failure_aborts_the_stream() {
    let items: Vec<Item> = vec![
        Ok(Either::Right(int_row(1))),
        Ok(Either::Right(text_row("not a number"))),
        Ok(Either::Right(int_row(3))),
    ];
    let r = query_as::<Sqlite, i64>("SELECT n FROM t").fetch_many(stub(items.clone()));
    assert_eq!(r, vec![Ok(Either::Right(1)), Err(Error::Decode)]);
    let all = query_as::<Sqlite, i64>("SELECT n FROM t").fetch_all(stub(items));
    assert_eq!(all, Err(Error::Decode));
}

#[test]
fn executor_failure_propagates_unchanged() {
    let items: Vec<Item> = vec![Ok(Either::Right(int_row(1))), Err(Error::Protocol)];
    let all = query_as::<Sqlite, i64>("SELECT n FROM t").fetch_all(stub(items.clone()));
    assert_eq!(all, Err(Error::Protocol));
    let opt = query_as::<Sqlite, i64>("SELECT n FROM t")
        .fetch_optional(stub(vec![Err(Error::Protocol)]));
    assert_eq!(opt, Err(Error::Protocol));
}

#[test]
fn scalar_fetch_unwraps_single_columns() {
    let items: Vec<Item> = vec![
        Ok(Either::Right(int_row(10))),
        Ok(Either::Right(int_row(20))),
        Ok(Either::Left(done(2))),
    ];
    let all = query_scalar::<Sqlite, i64>("SELECT n FROM t").fetch_all(stub(items.clone()));
    assert_eq!(all, Ok(vec![10, 20]));
    let one = query_scalar::<Sqlite, i64>("SELECT n FROM t").fetch_one(stub(items.clone()));
    assert_eq!(one, Ok(10));
    let many = query_scalar::<Sqlite, i64>("SELECT n FROM t").fetch_many(stub(items));
    assert_eq!(
        many,
        vec![Ok(Either::Right(10)), Ok(Either::Right(20)), Ok(Either::Left(done(2)))],
    );
}

#[test]
fn scalar_zero_rows_behaves_like_row_mapped() {
    let items: Vec<Item> = vec![Ok(Either::Left(done(0)))];
    let one = query_scalar::<Sqlite, i64>("SELECT n FROM t").fetch_one(stub(items.clone()));
    assert_eq!(one, Err(Error::RowNotFound));
    let opt = query_scalar::<Sqlite, i64>("SELECT n FROM t").fetch_optional(stub(items));
    assert_eq!(opt, Ok(None));
}

#[test]
fn empty_stream_yields_nothing() {
    let all = query_as::<Sqlite, i64>("SELECT n FROM t").fetch_all(stub(Vec::new()));
    assert_eq!(all, Ok(Vec::new()));
    let opt = query_as::<Sqlite, i64>("SELECT n FROM t").fetch_optional(stub(Vec::new()));
    assert_eq!(opt, Ok(None));
}

#[test]
fn opaque_family_fetches_end_to_end() {
    let items: Vec<Result<Either<AnyDone, AnyRow>, Error>> = vec![
        Ok(Either::Right(AnyRow::Sqlite(int_row(9)))),
        Ok(Either::Right(AnyRow::Sqlite(int_row(10)))),
        Ok(Either::Left(AnyDone::Sqlite(done(2)))),
    ];
    let executor: StubExecutor<Any> = StubExecutor { items };
    let r = query_as::<Any, i64>("SELECT n FROM t").fetch_all(executor);
    assert_eq!(r, Ok(vec![9, 10]));
}
