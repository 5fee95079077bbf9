use vstd::prelude::*;

use core::marker::PhantomData;

use crate::arguments::{Arguments, IntoArguments};
use crate::database::{Database, HasArguments, HasStatement};
use crate::either::Either;
use crate::encode::Encode;
use crate::error::Error;
use crate::executor::{first_row_spec, Execute, Executor};
use crate::from_row::FromRow;
use crate::query::{query, query_statement, query_statement_with, query_with, Query};
use crate::types::Type;

verus! {

/// The decoded result stream: completion summaries pass through unchanged,
/// every row is decoded, and the first failure — the executor's or the
/// decoder's — ends the stream as its last item.
pub open spec fn decode_items_spec<D, R, O: FromRow<R>>(
    items: Seq<Result<Either<D, R>, Error>>,
) -> Seq<Result<Either<D, O>, Error>>
    decreases items.len(),
{
    if items.len() == 0 {
        Seq::<Result<Either<D, O>, Error>>::empty()
    } else {
        match items[0] {
            Err(e) => seq![Err(e)],
            Ok(Either::Left(d)) => seq![Ok(Either::Left(d))] + decode_items_spec::<D, R, O>(
                items.drop_first(),
            ),
            Ok(Either::Right(row)) => match O::from_row_spec(&row) {
                Ok(o) => seq![Ok(Either::Right(o))] + decode_items_spec::<D, R, O>(
                    items.drop_first(),
                ),
                Err(e) => seq![Err(e)],
            },
        }
    }
}

/// The row-only view of a decoded stream: completion summaries are dropped,
/// decoded rows and failures are kept, in order.
pub open spec fn row_results_spec<D, O>(decoded: Seq<Result<Either<D, O>, Error>>) -> Seq<
    Result<O, Error>,
>
    decreases decoded.len(),
{
    if decoded.len() == 0 {
        Seq::<Result<O, Error>>::empty()
    } else {
        let rest = row_results_spec::<D, O>(decoded.drop_first());
        match decoded[0] {
            Err(e) => seq![Err(e)] + rest,
            Ok(Either::Left(_)) => rest,
            Ok(Either::Right(o)) => seq![Ok(o)] + rest,
        }
    }
}

/// Collecting a row sequence: the whole ordered collection, or the first
/// failure — never a partial collection.
pub open spec fn collect_rows_spec<O>(rows: Seq<Result<O, Error>>) -> Result<Seq<O>, Error>
    decreases rows.len(),
{
    if rows.len() == 0 {
        Ok(Seq::<O>::empty())
    } else {
        match rows[0] {
            Err(e) => Err(e),
            Ok(o) => match collect_rows_spec(rows.drop_first()) {
                Ok(rest) => Ok(seq![o] + rest),
                Err(e) => Err(e),
            },
        }
    }
}

/// Decoding the outcome of the zero-or-one mode.
pub open spec fn decode_optional_spec<R, O: FromRow<R>>(fetched: Result<Option<R>, Error>) -> Result<
    Option<O>,
    Error,
> {
    match fetched {
        Err(e) => Err(e),
        Ok(None) => Ok(None),
        Ok(Some(row)) => match O::from_row_spec(&row) {
            Ok(o) => Ok(Some(o)),
            Err(e) => Err(e),
        },
    }
}

/// Requiring exactly one row: an empty outcome becomes the distinct
/// row-not-found error.
pub open spec fn one_from_optional_spec<O>(fetched: Result<Option<O>, Error>) -> Result<O, Error> {
    match fetched {
        Err(e) => Err(e),
        Ok(Some(o)) => Ok(o),
        Ok(None) => Err(Error::RowNotFound),
    }
}

/// Raw SQL query with bind parameters, mapped to a concrete output type using
/// [`FromRow`].  Returned from [`query_as`].
#[must_use]
pub struct QueryAs<DB, O, A> where DB: Database + HasArguments + HasStatement {
    pub(crate) inner: Query<DB, A>,
    pub(crate) output: PhantomData<O>,
}

impl<DB, O, A> Execute<DB> for QueryAs<DB, O, A> where
    DB: Database + HasArguments + HasStatement,
    DB::Arguments: Arguments<Database = DB>,
    A: IntoArguments<DB>,
 {
    closed spec fn sql_spec(&self) -> Seq<char> {
        self.inner.sql_spec()
    }

    closed spec fn uses_statement(&self) -> bool {
        self.inner.uses_statement()
    }

    closed spec fn arguments_model(&self) -> Option<Seq<crate::arguments::BoundValue>> {
        self.inner.arguments_model()
    }

    closed spec fn persistent_spec(&self) -> bool {
        self.inner.persistent_spec()
    }

    fn sql(&self) -> (r: &String) {
        self.inner.sql()
    }

    fn statement(&self) -> (r: Option<&DB::Statement>) {
        self.inner.statement()
    }

    fn take_arguments(&mut self) -> (r: Option<DB::Arguments>) {
        self.inner.take_arguments()
    }

    fn persistent(&self) -> (r: bool) {
        self.inner.persistent()
    }
}

impl<DB, O> QueryAs<DB, O, <DB as HasArguments>::Arguments> where
    DB: Database + HasArguments + HasStatement,
    DB::Arguments: Arguments<Database = DB>,
 {
    /// Binds a value for use with this query, in the next positional slot.
    pub fn bind<T>(self, value: T) -> (r: Self) where T: Encode<DB> + Type<DB>,
        ensures
            r.sql_spec() == self.sql_spec(),
            r.uses_statement() == self.uses_statement(),
            r.persistent_spec() == self.persistent_spec(),
            r.arguments_model() == Some(
                match self.arguments_model() {
                    Some(m) => m.push(value.bound_spec()),
                    None => seq![value.bound_spec()],
                },
            ),
    {
        QueryAs { inner: self.inner.bind(value), output: PhantomData }
    }
}

impl<DB, O, A> QueryAs<DB, O, A> where
    DB: Database + HasArguments + HasStatement,
    DB::Arguments: Arguments<Database = DB>,
    A: IntoArguments<DB>,
    O: FromRow<DB::Row>,
 {
    /// Executes the query — possibly multi-statement — and returns the whole
    /// decoded result stream: completion summaries interleaved with decoded
    /// rows, ended early by the first failure.
    pub fn fetch_many<E>(self, executor: E) -> (r: Vec<Result<Either<DB::Done, O>, Error>>) where
        E: Executor<Database = DB>,

        ensures
            r@ == decode_items_spec::<DB::Done, DB::Row, O>(
                executor.many_spec(
                    self.sql_spec(),
                    self.arguments_model(),
                    self.persistent_spec(),
                ),
            ),
    {
        let ghost gitems = executor.many_spec(
            self.sql_spec(),
            self.arguments_model(),
            self.persistent_spec(),
        );
        let mut items = executor.fetch_many_items(self);
        let mut out: Vec<Result<Either<DB::Done, O>, Error>> = Vec::new();
        proof {
            assert(out@ + decode_items_spec::<DB::Done, DB::Row, O>(items@)
                =~= decode_items_spec::<DB::Done, DB::Row, O>(gitems));
        }
        while items.len() > 0
            invariant
                gitems == executor.many_spec(
                    self.sql_spec(),
                    self.arguments_model(),
                    self.persistent_spec(),
                ),
                out@ + decode_items_spec::<DB::Done, DB::Row, O>(items@)
                    == decode_items_spec::<DB::Done, DB::Row, O>(gitems),
            decreases items@.len(),
        {
            let ghost pre = items@;
            let it = items.remove(0);
            proof {
                assert(items@ =~= pre.drop_first());
            }
            match it {
                Err(e) => {
                    out.push(Err(e));
                    proof {
                        assert(out@ =~= decode_items_spec::<DB::Done, DB::Row, O>(gitems));
                    }
                    return out;
                },
                Ok(Either::Left(d)) => {
                    out.push(Ok(Either::Left(d)));
                },
                Ok(Either::Right(row)) => {
                    match O::from_row(&row) {
                        Ok(o) => {
                            out.push(Ok(Either::Right(o)));
                        },
                        Err(e) => {
                            out.push(Err(e));
                            proof {
                                assert(out@ =~= decode_items_spec::<DB::Done, DB::Row, O>(gitems));
                            }
                            return out;
                        },
                    }
                },
            }
            proof {
                assert(out@ + decode_items_spec::<DB::Done, DB::Row, O>(items@)
                    =~= decode_items_spec::<DB::Done, DB::Row, O>(gitems));
            }
        }
        proof {
            assert(out@ + decode_items_spec::<DB::Done, DB::Row, O>(items@) =~= out@);
        }
        out
    }

    /// Executes the query and returns the decoded rows alone, completion
    /// summaries discarded, as one flat sequence ended early by the first
    /// failure.
    pub fn fetch<E>(self, executor: E) -> (r: Vec<Result<O, Error>>) where
        E: Executor<Database = DB>,

        ensures
            r@ == row_results_spec::<DB::Done, O>(
                decode_items_spec::<DB::Done, DB::Row, O>(
                    executor.many_spec(
                        self.sql_spec(),
                        self.arguments_model(),
                        self.persistent_spec(),
                    ),
                ),
            ),
    {
        let ghost gdecoded = decode_items_spec::<DB::Done, DB::Row, O>(
            executor.many_spec(self.sql_spec(), self.arguments_model(), self.persistent_spec()),
        );
        let mut many = self.fetch_many(executor);
        let mut out: Vec<Result<O, Error>> = Vec::new();
        proof {
            assert(out@ + row_results_spec::<DB::Done, O>(many@) =~= row_results_spec::<
                DB::Done,
                O,
            >(gdecoded));
        }
        while many.len() > 0
            invariant
                out@ + row_results_spec::<DB::Done, O>(many@) == row_results_spec::<DB::Done, O>(
                    gdecoded,
                ),
            decreases many@.len(),
        {
            let ghost pre = many@;
            let it = many.remove(0);
            proof {
                assert(many@ =~= pre.drop_first());
            }
            match it {
                Err(e) => {
                    out.push(Err(e));
                },
                Ok(Either::Left(_)) => {},
                Ok(Either::Right(o)) => {
                    out.push(Ok(o));
                },
            }
            proof {
                assert(out@ + row_results_spec::<DB::Done, O>(many@) =~= row_results_spec::<
                    DB::Done,
                    O,
                >(gdecoded));
            }
        }
        proof {
            assert(out@ + row_results_spec::<DB::Done, O>(many@) =~= out@);
        }
        out
    }

    /// Executes the query and returns all decoded rows, collected: the whole
    /// ordered collection, or the first failure — never a partial one.
    pub fn fetch_all<E>(self, executor: E) -> (r: Result<Vec<O>, Error>) where
        E: Executor<Database = DB>,

        ensures
            ({
                let rows = row_results_spec::<DB::Done, O>(
                    decode_items_spec::<DB::Done, DB::Row, O>(
                        executor.many_spec(
                            self.sql_spec(),
                            self.arguments_model(),
                            self.persistent_spec(),
                        ),
                    ),
                );
                match r {
                    Ok(v) => collect_rows_spec(rows) == Ok::<Seq<O>, Error>(v@),
                    Err(e) => collect_rows_spec(rows) == Err::<Seq<O>, Error>(e),
                }
            }),
    {
        let ghost grows = row_results_spec::<DB::Done, O>(
            decode_items_spec::<DB::Done, DB::Row, O>(
                executor.many_spec(
                    self.sql_spec(),
                    self.arguments_model(),
                    self.persistent_spec(),
                ),
            ),
        );
        let mut rows = self.fetch(executor);
        let mut out: Vec<O> = Vec::new();
        proof {
            assert(out@ =~= Seq::<O>::empty());
        }
        while rows.len() > 0
            invariant
                grows == row_results_spec::<DB::Done, O>(
                    decode_items_spec::<DB::Done, DB::Row, O>(
                        executor.many_spec(
                            self.sql_spec(),
                            self.arguments_model(),
                            self.persistent_spec(),
                        ),
                    ),
                ),
                collect_rows_spec(grows) == (match collect_rows_spec(rows@) {
                    Ok(rest) => Ok::<Seq<O>, Error>(out@ + rest),
                    Err(e) => Err::<Seq<O>, Error>(e),
                }),
            decreases rows@.len(),
        {
            let ghost pre = rows@;
            let it = rows.remove(0);
            proof {
                assert(rows@ =~= pre.drop_first());
            }
            match it {
                Err(e) => {
                    return Err(e);
                },
                Ok(o) => {
                    let ghost pre_out = out@;
                    out.push(o);
                    proof {
                        match collect_rows_spec(rows@) {
                            Ok(rest) => {
                                assert(pre_out + (seq![o] + rest) =~= out@ + rest);
                            },
                            Err(_) => {},
                        }
                    }
                },
            }
        }
        proof {
            assert(collect_rows_spec(rows@) == Ok::<Seq<O>, Error>(Seq::<O>::empty()));
            assert(out@ + Seq::<O>::empty() =~= out@);
        }
        Ok(out)
    }

    /// Executes the query in the optimized zero-or-one mode and decodes the
    /// row, if one arrived.
    pub fn fetch_optional<E>(self, executor: E) -> (r: Result<Option<O>, Error>) where
        E: Executor<Database = DB>,

        ensures
            r == decode_optional_spec::<DB::Row, O>(
                executor.optional_spec(
                    self.sql_spec(),
                    self.arguments_model(),
                    self.persistent_spec(),
                ),
            ),
    {
        let fetched = executor.fetch_optional_item(self);
        match fetched {
            Err(e) => Err(e),
            Ok(None) => Ok(None),
            Ok(Some(row)) => match O::from_row(&row) {
                Ok(o) => Ok(Some(o)),
                Err(e) => Err(e),
            },
        }
    }

    /// Executes the query and returns exactly one decoded row: an empty
    /// outcome becomes the distinct row-not-found error; rows beyond the
    /// first are never examined.
    pub fn fetch_one<E>(self, executor: E) -> (r: Result<O, Error>) where
        E: Executor<Database = DB>,

        ensures
            r == one_from_optional_spec::<O>(
                decode_optional_spec::<DB::Row, O>(
                    executor.optional_spec(
                        self.sql_spec(),
                        self.arguments_model(),
                        self.persistent_spec(),
                    ),
                ),
            ),
    {
        let fetched = self.fetch_optional(executor);
        match fetched {
            Err(e) => Err(e),
            Ok(Some(o)) => Ok(o),
            Ok(None) => Err(Error::RowNotFound),
        }
    }
}

/// Makes a query mapped to a concrete output type using [`FromRow`].
pub fn query_as<DB, O>(sql: &str) -> (r: QueryAs<DB, O, <DB as HasArguments>::Arguments>) where
    DB: Database + HasArguments + HasStatement,
    DB::Arguments: Arguments<Database = DB>,
    O: FromRow<DB::Row>,

    ensures
        r.sql_spec() == sql@,
        !r.uses_statement(),
        r.arguments_model() is None,
        r.persistent_spec(),
{
    QueryAs { inner: query(sql), output: PhantomData }
}

/// Makes a query, with the given parameter collection, mapped to a concrete
/// output type using [`FromRow`].
pub fn query_as_with<DB, O, A>(sql: &str, arguments: A) -> (r: QueryAs<DB, O, A>) where
    DB: Database + HasArguments + HasStatement,
    DB::Arguments: Arguments<Database = DB>,
    A: IntoArguments<DB>,
    O: FromRow<DB::Row>,

    ensures
        r.sql_spec() == sql@,
        !r.uses_statement(),
        r.arguments_model() == Some(arguments.model()),
        r.persistent_spec(),
{
    QueryAs { inner: query_with(sql, arguments), output: PhantomData }
}

/// Makes a query from a prepared statement, mapped to a concrete output type.
pub fn query_statement_as<DB, O>(statement: &DB::Statement) -> (r: QueryAs<
    DB,
    O,
    <DB as HasArguments>::Arguments,
>) where
    DB: Database + HasArguments + HasStatement,
    DB::Arguments: Arguments<Database = DB>,
    O: FromRow<DB::Row>,

    ensures
        r.sql_spec() == DB::statement_sql_spec(statement),
        r.uses_statement(),
        r.arguments_model() is None,
        r.persistent_spec(),
{
    QueryAs { inner: query_statement(statement), output: PhantomData }
}

/// Makes a query from a prepared statement, with the given parameter
/// collection, mapped to a concrete output type.
pub fn query_statement_as_with<DB, O, A>(statement: &DB::Statement, arguments: A) -> (r: QueryAs<
    DB,
    O,
    A,
>) where
    DB: Database + HasArguments + HasStatement,
    DB::Arguments: Arguments<Database = DB>,
    A: IntoArguments<DB>,
    O: FromRow<DB::Row>,

    ensures
        r.sql_spec() == DB::statement_sql_spec(statement),
        r.uses_statement(),
        r.arguments_model() == Some(arguments.model()),
        r.persistent_spec(),
{
    QueryAs { inner: query_statement_with(statement, arguments), output: PhantomData }
}


/// Whether one stream item will decode without failure.
pub open spec fn item_clean_spec<D, R, O: FromRow<R>>(it: Result<Either<D, R>, Error>) -> bool {
    match it {
        Ok(Either::Left(_)) => true,
        Ok(Either::Right(row)) => O::from_row_spec(&row) is Ok,
        Err(_) => false,
    }
}

/// Whether a whole stream decodes without failure: no executor failure and no
/// row the decoder rejects.
pub open spec fn decode_clean_spec<D, R, O: FromRow<R>>(
    items: Seq<Result<Either<D, R>, Error>>,
) -> bool {
    forall|i: int| 0 <= i < items.len() ==> item_clean_spec::<D, R, O>(#[trigger] items[i])
}

/// Whether a stream holds no executor failure.
pub open spec fn error_free_spec<D, R>(items: Seq<Result<Either<D, R>, Error>>) -> bool {
    forall|i: int| 0 <= i < items.len() ==> (#[trigger] items[i]) is Ok
}

/// The rows a stream produces, in order, markers and failures set aside.
pub open spec fn rows_of_spec<D, R>(items: Seq<Result<Either<D, R>, Error>>) -> Seq<R>
    decreases items.len(),
{
    if items.len() == 0 {
        Seq::<R>::empty()
    } else {
        let rest = rows_of_spec::<D, R>(items.drop_first());
        match items[0] {
            Ok(Either::Right(r)) => seq![r] + rest,
            _ => rest,
        }
    }
}

/// Decoding distributes over concatenation as long as the first part is
/// clean: the decode of the whole is the decode of the parts, in order.
pub proof fn lemma_decode_items_concat<D, R, O: FromRow<R>>(
    s1: Seq<Result<Either<D, R>, Error>>,
    s2: Seq<Result<Either<D, R>, Error>>,
)
    requires
        decode_clean_spec::<D, R, O>(s1),
    ensures
        decode_items_spec::<D, R, O>(s1 + s2) == decode_items_spec::<D, R, O>(s1)
            + decode_items_spec::<D, R, O>(s2),
    decreases s1.len(),
{
    if s1.len() == 0 {
        assert(s1 + s2 =~= s2);
        assert(decode_items_spec::<D, R, O>(s1) + decode_items_spec::<D, R, O>(s2)
            =~= decode_items_spec::<D, R, O>(s2));
    } else {
        let rest = s1.drop_first();
        assert forall|i: int| 0 <= i < rest.len() implies item_clean_spec::<D, R, O>(
            #[trigger] rest[i],
        ) by {
            assert(rest[i] == s1[i + 1]);
        }
        lemma_decode_items_concat::<D, R, O>(rest, s2);
        assert((s1 + s2).drop_first() =~= rest + s2);
        assert((s1 + s2)[0] == s1[0]);
        assert(item_clean_spec::<D, R, O>(s1[0]));
        match s1[0] {
            Err(_) => {
                assert(false);
            },
            Ok(Either::Left(d)) => {
                assert(seq![Ok::<Either<D, O>, Error>(Either::Left(d))] + (decode_items_spec::<
                    D,
                    R,
                    O,
                >(rest) + decode_items_spec::<D, R, O>(s2)) =~= (seq![
                    Ok::<Either<D, O>, Error>(Either::Left(d)),
                ] + decode_items_spec::<D, R, O>(rest)) + decode_items_spec::<D, R, O>(s2));
            },
            Ok(Either::Right(row)) => {
                let o = O::from_row_spec(&row)->Ok_0;
                assert(seq![Ok::<Either<D, O>, Error>(Either::Right(o))] + (decode_items_spec::<
                    D,
                    R,
                    O,
                >(rest) + decode_items_spec::<D, R, O>(s2)) =~= (seq![
                    Ok::<Either<D, O>, Error>(Either::Right(o)),
                ] + decode_items_spec::<D, R, O>(rest)) + decode_items_spec::<D, R, O>(s2));
            },
        }
    }
}

/// Keeping only rows distributes over concatenation unconditionally.
pub proof fn lemma_row_results_concat<D, O>(
    d1: Seq<Result<Either<D, O>, Error>>,
    d2: Seq<Result<Either<D, O>, Error>>,
)
    ensures
        row_results_spec::<D, O>(d1 + d2) == row_results_spec::<D, O>(d1) + row_results_spec::<
            D,
            O,
        >(d2),
    decreases d1.len(),
{
    if d1.len() == 0 {
        assert(d1 + d2 =~= d2);
        assert(row_results_spec::<D, O>(d1) + row_results_spec::<D, O>(d2) =~= row_results_spec::<
            D,
            O,
        >(d2));
    } else {
        let rest = d1.drop_first();
        lemma_row_results_concat::<D, O>(rest, d2);
        assert((d1 + d2).drop_first() =~= rest + d2);
        assert((d1 + d2)[0] == d1[0]);
        match d1[0] {
            Err(e) => {
                assert(seq![Err::<O, Error>(e)] + (row_results_spec::<D, O>(rest)
                    + row_results_spec::<D, O>(d2)) =~= (seq![Err::<O, Error>(e)]
                    + row_results_spec::<D, O>(rest)) + row_results_spec::<D, O>(d2));
            },
            Ok(Either::Left(_)) => {
            },
            Ok(Either::Right(o)) => {
                assert(seq![Ok::<O, Error>(o)] + (row_results_spec::<D, O>(rest)
                    + row_results_spec::<D, O>(d2)) =~= (seq![Ok::<O, Error>(o)]
                    + row_results_spec::<D, O>(rest)) + row_results_spec::<D, O>(d2));
            },
        }
    }
}

/// How collecting behaves over a concatenation: the first failure wins, and
/// two successes concatenate.
pub proof fn lemma_collect_rows_concat<O>(r1: Seq<Result<O, Error>>, r2: Seq<Result<O, Error>>)
    ensures
        match (collect_rows_spec::<O>(r1), collect_rows_spec::<O>(r2)) {
            (Ok(a), Ok(b)) => collect_rows_spec::<O>(r1 + r2) == Ok::<Seq<O>, Error>(a + b),
            (Ok(a), Err(e)) => collect_rows_spec::<O>(r1 + r2) == Err::<Seq<O>, Error>(e),
            (Err(e), _) => collect_rows_spec::<O>(r1 + r2) == Err::<Seq<O>, Error>(e),
        },
    decreases r1.len(),
{
    if r1.len() == 0 {
        assert(r1 + r2 =~= r2);
        if collect_rows_spec::<O>(r2) is Ok {
            assert(Seq::<O>::empty() + collect_rows_spec::<O>(r2)->Ok_0 =~= collect_rows_spec::<
                O,
            >(r2)->Ok_0);
        }
    } else {
        let rest = r1.drop_first();
        lemma_collect_rows_concat::<O>(rest, r2);
        assert((r1 + r2).drop_first() =~= rest + r2);
        assert((r1 + r2)[0] == r1[0]);
        match r1[0] {
            Err(_) => {
            },
            Ok(o) => {
                match (collect_rows_spec::<O>(rest), collect_rows_spec::<O>(r2)) {
                    (Ok(a), Ok(b)) => {
                        assert(seq![o] + (a + b) =~= (seq![o] + a) + b);
                    },
                    _ => {
                    },
                }
            },
        }
    }
}

/// A clean stream collects successfully.
pub proof fn lemma_clean_collect_ok<D, R, O: FromRow<R>>(items: Seq<Result<Either<D, R>, Error>>)
    requires
        decode_clean_spec::<D, R, O>(items),
    ensures
        collect_rows_spec::<O>(row_results_spec::<D, O>(decode_items_spec::<D, R, O>(items)))
            is Ok,
    decreases items.len(),
{
    if items.len() > 0 {
        let rest = items.drop_first();
        assert forall|i: int| 0 <= i < rest.len() implies item_clean_spec::<D, R, O>(
            #[trigger] rest[i],
        ) by {
            assert(rest[i] == items[i + 1]);
        }
        lemma_clean_collect_ok::<D, R, O>(rest);
        assert(item_clean_spec::<D, R, O>(items[0]));
        match items[0] {
            Err(_) => {
                assert(false);
            },
            Ok(Either::Left(d)) => {
                let one = seq![Ok::<Either<D, O>, Error>(Either::Left(d))];
                lemma_row_results_concat::<D, O>(one, decode_items_spec::<D, R, O>(rest));
                assert(one + decode_items_spec::<D, R, O>(rest) == decode_items_spec::<D, R, O>(
                    items,
                ));
                assert(one.drop_first() =~= Seq::<Result<Either<D, O>, Error>>::empty());
                assert(row_results_spec::<D, O>(one.drop_first()) == Seq::<
                    Result<O, Error>,
                >::empty());
                assert(row_results_spec::<D, O>(one) =~= Seq::<Result<O, Error>>::empty());
                assert(Seq::<Result<O, Error>>::empty() + row_results_spec::<D, O>(
                    decode_items_spec::<D, R, O>(rest),
                ) =~= row_results_spec::<D, O>(decode_items_spec::<D, R, O>(rest)));
            },
            Ok(Either::Right(row)) => {
                let o = O::from_row_spec(&row)->Ok_0;
                let one = seq![Ok::<Either<D, O>, Error>(Either::Right(o))];
                lemma_row_results_concat::<D, O>(one, decode_items_spec::<D, R, O>(rest));
                assert(one + decode_items_spec::<D, R, O>(rest) == decode_items_spec::<D, R, O>(
                    items,
                ));
                assert(one.drop_first() =~= Seq::<Result<Either<D, O>, Error>>::empty());
                assert(row_results_spec::<D, O>(one.drop_first()) == Seq::<
                    Result<O, Error>,
                >::empty());
                assert(row_results_spec::<D, O>(one) =~= seq![Ok::<O, Error>(o)]);
                lemma_collect_rows_concat::<O>(
                    seq![Ok::<O, Error>(o)],
                    row_results_spec::<D, O>(decode_items_spec::<D, R, O>(rest)),
                );
                let rr = seq![Ok::<O, Error>(o)];
                assert(rr.drop_first() =~= Seq::<Result<O, Error>>::empty());
                assert(collect_rows_spec::<O>(rr.drop_first()) == Ok::<Seq<O>, Error>(
                    Seq::<O>::empty(),
                ));
                assert(collect_rows_spec::<O>(rr) == Ok::<Seq<O>, Error>(
                    seq![o] + Seq::<O>::empty(),
                ));
            },
        }
    }
}

/// Fetching everything from a multi-statement execution equals the in-order
/// concatenation of the statements' own fetched rows, completion markers
/// excluded: collecting the whole stream yields the first statement's rows
/// followed by whatever collecting the remainder yields, and fails exactly
/// where the remainder fails.
pub proof fn lemma_fetch_all_concat<D, R, O: FromRow<R>>(
    s1: Seq<Result<Either<D, R>, Error>>,
    s2: Seq<Result<Either<D, R>, Error>>,
)
    requires
        decode_clean_spec::<D, R, O>(s1),
    ensures
        ({
            let whole = collect_rows_spec::<O>(
                row_results_spec::<D, O>(decode_items_spec::<D, R, O>(s1 + s2)),
            );
            let first = collect_rows_spec::<O>(
                row_results_spec::<D, O>(decode_items_spec::<D, R, O>(s1)),
            );
            let second = collect_rows_spec::<O>(
                row_results_spec::<D, O>(decode_items_spec::<D, R, O>(s2)),
            );
            &&& first is Ok
            &&& (match (first, second) {
                (Ok(a), Ok(b)) => whole == Ok::<Seq<O>, Error>(a + b),
                (Ok(a), Err(e)) => whole == Err::<Seq<O>, Error>(e),
                _ => false,
            })
        }),
{
    lemma_decode_items_concat::<D, R, O>(s1, s2);
    lemma_row_results_concat::<D, O>(
        decode_items_spec::<D, R, O>(s1),
        decode_items_spec::<D, R, O>(s2),
    );
    lemma_clean_collect_ok::<D, R, O>(s1);
    lemma_collect_rows_concat::<O>(
        row_results_spec::<D, O>(decode_items_spec::<D, R, O>(s1)),
        row_results_spec::<D, O>(decode_items_spec::<D, R, O>(s2)),
    );
}

/// Given zero rows and no failure, the zero-or-one mode yields nothing, so
/// an optional fetch is empty and a one-row fetch fails with the distinct
/// row-not-found error.
pub proof fn lemma_zero_rows<D, R, O: FromRow<R>>(items: Seq<Result<Either<D, R>, Error>>)
    requires
        error_free_spec::<D, R>(items),
        rows_of_spec::<D, R>(items).len() == 0,
    ensures
        first_row_spec::<D, R>(items) == Ok::<Option<R>, Error>(None),
        decode_optional_spec::<R, O>(first_row_spec::<D, R>(items)) == Ok::<Option<O>, Error>(
            None,
        ),
        one_from_optional_spec::<O>(
            decode_optional_spec::<R, O>(first_row_spec::<D, R>(items)),
        ) == Err::<O, Error>(Error::RowNotFound),
    decreases items.len(),
{
    if items.len() > 0 {
        let rest = items.drop_first();
        assert(items[0] is Ok);
        match items[0] {
            Ok(Either::Right(_)) => {
                assert(false);
            },
            Ok(Either::Left(_)) => {
                assert forall|i: int| 0 <= i < rest.len() implies (#[trigger] rest[i]) is Ok by {
                    assert(rest[i] == items[i + 1]);
                }
                lemma_zero_rows::<D, R, O>(rest);
            },
            Err(_) => {
            },
        }
    }
}

/// Given at least one row and no failure, the zero-or-one mode yields exactly
/// the first produced row, so an optional fetch and a one-row fetch both
/// yield that row decoded.
pub proof fn lemma_first_row_yields<D, R, O: FromRow<R>>(items: Seq<Result<Either<D, R>, Error>>)
    requires
        error_free_spec::<D, R>(items),
        rows_of_spec::<D, R>(items).len() >= 1,
    ensures
        first_row_spec::<D, R>(items) == Ok::<Option<R>, Error>(
            Some(rows_of_spec::<D, R>(items)[0]),
        ),
        decode_optional_spec::<R, O>(first_row_spec::<D, R>(items)) == (match O::from_row_spec(
            &rows_of_spec::<D, R>(items)[0],
        ) {
            Ok(o) => Ok::<Option<O>, Error>(Some(o)),
            Err(e) => Err::<Option<O>, Error>(e),
        }),
        one_from_optional_spec::<O>(
            decode_optional_spec::<R, O>(first_row_spec::<D, R>(items)),
        ) == (match O::from_row_spec(&rows_of_spec::<D, R>(items)[0]) {
            Ok(o) => Ok::<O, Error>(o),
            Err(e) => Err::<O, Error>(e),
        }),
    decreases items.len(),
{
    assert(items.len() > 0);
    let rest = items.drop_first();
    assert(items[0] is Ok);
    match items[0] {
        Ok(Either::Right(r)) => {
            assert(rows_of_spec::<D, R>(items)[0] == r);
        },
        Ok(Either::Left(_)) => {
            assert forall|i: int| 0 <= i < rest.len() implies (#[trigger] rest[i]) is Ok by {
                assert(rest[i] == items[i + 1]);
            }
            lemma_first_row_yields::<D, R, O>(rest);
        },
        Err(_) => {
        },
    }
}

/// Nothing past the first produced row is ever examined: whatever follows it
/// in the stream — further rows, completion markers, even failures — the
/// zero-or-one outcome is decided by the prefix that ends at that row.
pub proof fn lemma_first_row_prefix_only<D, R>(
    prefix: Seq<Result<Either<D, R>, Error>>,
    rest: Seq<Result<Either<D, R>, Error>>,
)
    requires
        error_free_spec::<D, R>(prefix),
        rows_of_spec::<D, R>(prefix).len() >= 1,
    ensures
        first_row_spec::<D, R>(prefix + rest) == first_row_spec::<D, R>(prefix),
    decreases prefix.len(),
{
    assert(prefix.len() > 0);
    let tail = prefix.drop_first();
    assert((prefix + rest)[0] == prefix[0]);
    assert(prefix[0] is Ok);
    match prefix[0] {
        Ok(Either::Right(_)) => {
        },
        Ok(Either::Left(_)) => {
            assert((prefix + rest).drop_first() =~= tail + rest);
            assert forall|i: int| 0 <= i < tail.len() implies (#[trigger] tail[i]) is Ok by {
                assert(tail[i] == prefix[i + 1]);
            }
            lemma_first_row_prefix_only::<D, R>(tail, rest);
        },
        Err(_) => {
        },
    }
}

} // verus!
