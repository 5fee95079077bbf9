use vstd::prelude::*;

use crate::arguments::{Arguments, BoundValue, IntoArguments};
use crate::database::{Database, HasArguments, HasStatement};
use crate::either::Either;
use crate::encode::Encode;
use crate::error::Error;
use crate::executor::{Execute, Executor};
use crate::from_row::FromRow;
use crate::query_as::{
    collect_rows_spec, decode_items_spec, decode_optional_spec, one_from_optional_spec,
    query_as, query_as_with, query_statement_as, query_statement_as_with, row_results_spec,
    QueryAs,
};
use crate::types::Type;

verus! {

/// One decoded stream item with its one-element tuple unwrapped.
pub open spec fn unwrap_item_spec<D, O>(it: Result<Either<D, (O,)>, Error>) -> Result<
    Either<D, O>,
    Error,
> {
    match it {
        Ok(Either::Left(d)) => Ok(Either::Left(d)),
        Ok(Either::Right(t)) => Ok(Either::Right(t.0)),
        Err(e) => Err(e),
    }
}

/// A decoded stream with every one-element tuple unwrapped.
pub open spec fn unwrap_items_spec<D, O>(items: Seq<Result<Either<D, (O,)>, Error>>) -> Seq<
    Result<Either<D, O>, Error>,
> {
    items.map_values(|it: Result<Either<D, (O,)>, Error>| unwrap_item_spec::<D, O>(it))
}

/// One row result with its one-element tuple unwrapped.
pub open spec fn unwrap_row_spec<O>(r: Result<(O,), Error>) -> Result<O, Error> {
    match r {
        Ok(t) => Ok(t.0),
        Err(e) => Err(e),
    }
}

/// A row-result sequence with every one-element tuple unwrapped.
pub open spec fn unwrap_rows_spec<O>(rows: Seq<Result<(O,), Error>>) -> Seq<Result<O, Error>> {
    rows.map_values(|r: Result<(O,), Error>| unwrap_row_spec::<O>(r))
}

/// A collected outcome with every one-element tuple unwrapped.
pub open spec fn unwrap_collected_spec<O>(r: Result<Seq<(O,)>, Error>) -> Result<Seq<O>, Error> {
    match r {
        Ok(v) => Ok(v.map_values(|t: (O,)| t.0)),
        Err(e) => Err(e),
    }
}

/// A zero-or-one outcome with the tuple unwrapped.
pub open spec fn unwrap_optional_spec<O>(r: Result<Option<(O,)>, Error>) -> Result<
    Option<O>,
    Error,
> {
    match r {
        Ok(Some(t)) => Ok(Some(t.0)),
        Ok(None) => Ok(None),
        Err(e) => Err(e),
    }
}

/// Raw SQL query with bind parameters, mapped to a single concrete scalar by
/// decoding each row as a one-element tuple and unwrapping it on every output
/// path.  Returned from [`query_scalar`].
#[must_use]
pub struct QueryScalar<DB, O, A> where DB: Database + HasArguments + HasStatement {
    pub(crate) inner: QueryAs<DB, (O,), A>,
}

impl<DB, O, A> Execute<DB> for QueryScalar<DB, O, A> where
    DB: Database + HasArguments + HasStatement,
    DB::Arguments: Arguments<Database = DB>,
    A: IntoArguments<DB>,
 {
    closed spec fn sql_spec(&self) -> Seq<char> {
        self.inner.sql_spec()
    }

    closed spec fn uses_statement(&self) -> bool {
        self.inner.uses_statement()
    }

    closed spec fn arguments_model(&self) -> Option<Seq<BoundValue>> {
        self.inner.arguments_model()
    }

    closed spec fn persistent_spec(&self) -> bool {
        self.inner.persistent_spec()
    }

    fn sql(&self) -> (r: &String) {
        self.inner.sql()
    }

    fn statement(&self) -> (r: Option<&DB::Statement>) {
        self.inner.statement()
    }

    fn take_arguments(&mut self) -> (r: Option<DB::Arguments>) {
        self.inner.take_arguments()
    }

    fn persistent(&self) -> (r: bool) {
        self.inner.persistent()
    }
}

impl<DB, O> QueryScalar<DB, O, <DB as HasArguments>::Arguments> where
    DB: Database + HasArguments + HasStatement,
    DB::Arguments: Arguments<Database = DB>,
 {
    /// Binds a value for use with this query, in the next positional slot.
    pub fn bind<T>(self, value: T) -> (r: Self) where T: Encode<DB> + Type<DB>,
        ensures
            r.sql_spec() == self.sql_spec(),
            r.uses_statement() == self.uses_statement(),
            r.persistent_spec() == self.persistent_spec(),
            r.arguments_model() == Some(
                match self.arguments_model() {
                    Some(m) => m.push(value.bound_spec()),
                    None => seq![value.bound_spec()],
                },
            ),
    {
        QueryScalar { inner: self.inner.bind(value) }
    }
}

impl<DB, O, A> QueryScalar<DB, O, A> where
    DB: Database + HasArguments + HasStatement,
    DB::Arguments: Arguments<Database = DB>,
    A: IntoArguments<DB>,
    O: FromRow<DB::Row>,
 {
    /// Executes the query and returns the whole decoded result stream, each
    /// row unwrapped to the scalar.
    pub fn fetch_many<E>(self, executor: E) -> (r: Vec<Result<Either<DB::Done, O>, Error>>) where
        E: Executor<Database = DB>,

        ensures
            r@ == unwrap_items_spec::<DB::Done, O>(
                decode_items_spec::<DB::Done, DB::Row, (O,)>(
                    executor.many_spec(
                        self.sql_spec(),
                        self.arguments_model(),
                        self.persistent_spec(),
                    ),
                ),
            ),
    {
        let ghost gitems = decode_items_spec::<DB::Done, DB::Row, (O,)>(
            executor.many_spec(self.sql_spec(), self.arguments_model(), self.persistent_spec()),
        );
        let mut items = self.inner.fetch_many(executor);
        let mut out: Vec<Result<Either<DB::Done, O>, Error>> = Vec::new();
        while items.len() > 0
            invariant
                gitems == decode_items_spec::<DB::Done, DB::Row, (O,)>(
                    executor.many_spec(
                        self.sql_spec(),
                        self.arguments_model(),
                        self.persistent_spec(),
                    ),
                ),
                out@ + unwrap_items_spec::<DB::Done, O>(items@) == unwrap_items_spec::<
                    DB::Done,
                    O,
                >(gitems),
            decreases items@.len(),
        {
            let ghost pre = items@;
            let it = items.remove(0);
            proof {
                assert(items@ =~= pre.drop_first());
            }
            match it {
                Err(e) => out.push(Err(e)),
                Ok(Either::Left(d)) => out.push(Ok(Either::Left(d))),
                Ok(Either::Right(t)) => out.push(Ok(Either::Right(t.0))),
            }
            proof {
                assert(out@ + unwrap_items_spec::<DB::Done, O>(items@) =~= unwrap_items_spec::<
                    DB::Done,
                    O,
                >(gitems));
            }
        }
        proof {
            assert(out@ + unwrap_items_spec::<DB::Done, O>(items@) =~= out@);
        }
        out
    }

    /// Executes the query and returns the decoded scalars alone, completion
    /// summaries discarded.
    pub fn fetch<E>(self, executor: E) -> (r: Vec<Result<O, Error>>) where
        E: Executor<Database = DB>,

        ensures
            r@ == unwrap_rows_spec::<O>(
                row_results_spec::<DB::Done, (O,)>(
                    decode_items_spec::<DB::Done, DB::Row, (O,)>(
                        executor.many_spec(
                            self.sql_spec(),
                            self.arguments_model(),
                            self.persistent_spec(),
                        ),
                    ),
                ),
            ),
    {
        let ghost grows = row_results_spec::<DB::Done, (O,)>(
            decode_items_spec::<DB::Done, DB::Row, (O,)>(
                executor.many_spec(
                    self.sql_spec(),
                    self.arguments_model(),
                    self.persistent_spec(),
                ),
            ),
        );
        let mut rows = self.inner.fetch(executor);
        let mut out: Vec<Result<O, Error>> = Vec::new();
        while rows.len() > 0
            invariant
                grows == row_results_spec::<DB::Done, (O,)>(
                    decode_items_spec::<DB::Done, DB::Row, (O,)>(
                        executor.many_spec(
                            self.sql_spec(),
                            self.arguments_model(),
                            self.persistent_spec(),
                        ),
                    ),
                ),
                out@ + unwrap_rows_spec::<O>(rows@) == unwrap_rows_spec::<O>(grows),
            decreases rows@.len(),
        {
            let ghost pre = rows@;
            let it = rows.remove(0);
            proof {
                assert(rows@ =~= pre.drop_first());
            }
            match it {
                Err(e) => out.push(Err(e)),
                Ok(t) => out.push(Ok(t.0)),
            }
            proof {
                assert(out@ + unwrap_rows_spec::<O>(rows@) =~= unwrap_rows_spec::<O>(grows));
            }
        }
        proof {
            assert(out@ + unwrap_rows_spec::<O>(rows@) =~= out@);
        }
        out
    }

    /// Executes the query and returns all decoded scalars, collected: the
    /// whole ordered collection, or the first failure.
    pub fn fetch_all<E>(self, executor: E) -> (r: Result<Vec<O>, Error>) where
        E: Executor<Database = DB>,

        ensures
            ({
                let collected = unwrap_collected_spec::<O>(
                    collect_rows_spec(
                        row_results_spec::<DB::Done, (O,)>(
                            decode_items_spec::<DB::Done, DB::Row, (O,)>(
                                executor.many_spec(
                                    self.sql_spec(),
                                    self.arguments_model(),
                                    self.persistent_spec(),
                                ),
                            ),
                        ),
                    ),
                );
                match r {
                    Ok(v) => collected == Ok::<Seq<O>, Error>(v@),
                    Err(e) => collected == Err::<Seq<O>, Error>(e),
                }
            }),
    {
        let ghost gcollected = collect_rows_spec(
            row_results_spec::<DB::Done, (O,)>(
                decode_items_spec::<DB::Done, DB::Row, (O,)>(
                    executor.many_spec(
                        self.sql_spec(),
                        self.arguments_model(),
                        self.persistent_spec(),
                    ),
                ),
            ),
        );
        let fetched = self.inner.fetch_all(executor);
        match fetched {
            Err(e) => Err(e),
            Ok(tuples) => {
                let ghost gtuples = tuples@;
                let mut tuples = tuples;
                let mut out: Vec<O> = Vec::new();
                while tuples.len() > 0
                    invariant
                        gcollected == collect_rows_spec(
                            row_results_spec::<DB::Done, (O,)>(
                                decode_items_spec::<DB::Done, DB::Row, (O,)>(
                                    executor.many_spec(
                                        self.sql_spec(),
                                        self.arguments_model(),
                                        self.persistent_spec(),
                                    ),
                                ),
                            ),
                        ),
                        gcollected == Ok::<Seq<(O,)>, Error>(gtuples),
                        out@ + tuples@.map_values(|t: (O,)| t.0) == gtuples.map_values(
                            |t: (O,)| t.0,
                        ),
                    decreases tuples@.len(),
                {
                    let ghost pre = tuples@;
                    let t = tuples.remove(0);
                    proof {
                        assert(tuples@ =~= pre.drop_first());
                    }
                    out.push(t.0);
                    proof {
                        assert(out@ + tuples@.map_values(|t: (O,)| t.0) =~= gtuples.map_values(
                            |t: (O,)| t.0,
                        ));
                    }
                }
                proof {
                    assert(out@ + tuples@.map_values(|t: (O,)| t.0) =~= out@);
                }
                Ok(out)
            },
        }
    }

    /// Executes the query in the optimized zero-or-one mode and decodes the
    /// scalar, if a row arrived.
    pub fn fetch_optional<E>(self, executor: E) -> (r: Result<Option<O>, Error>) where
        E: Executor<Database = DB>,

        ensures
            r == unwrap_optional_spec::<O>(
                decode_optional_spec::<DB::Row, (O,)>(
                    executor.optional_spec(
                        self.sql_spec(),
                        self.arguments_model(),
                        self.persistent_spec(),
                    ),
                ),
            ),
    {
        let fetched = self.inner.fetch_optional(executor);
        match fetched {
            Err(e) => Err(e),
            Ok(None) => Ok(None),
            Ok(Some(t)) => Ok(Some(t.0)),
        }
    }

    /// Executes the query and returns exactly one decoded scalar; an empty
    /// outcome becomes the distinct row-not-found error.
    pub fn fetch_one<E>(self, executor: E) -> (r: Result<O, Error>) where
        E: Executor<Database = DB>,

        ensures
            r == one_from_optional_spec::<O>(
                unwrap_optional_spec::<O>(
                    decode_optional_spec::<DB::Row, (O,)>(
                        executor.optional_spec(
                            self.sql_spec(),
                            self.arguments_model(),
                            self.persistent_spec(),
                        ),
                    ),
                ),
            ),
    {
        let fetched = self.inner.fetch_one(executor);
        match fetched {
            Err(e) => Err(e),
            Ok(t) => Ok(t.0),
        }
    }
}

/// Makes a query mapped to a single concrete scalar type.
pub fn query_scalar<DB, O>(sql: &str) -> (r: QueryScalar<
    DB,
    O,
    <DB as HasArguments>::Arguments,
>) where
    DB: Database + HasArguments + HasStatement,
    DB::Arguments: Arguments<Database = DB>,
    O: FromRow<DB::Row>,

    ensures
        r.sql_spec() == sql@,
        !r.uses_statement(),
        r.arguments_model() is None,
        r.persistent_spec(),
{
    QueryScalar { inner: query_as(sql) }
}

/// Makes a query, with the given parameter collection, mapped to a single
/// concrete scalar type.
pub fn query_scalar_with<DB, O, A>(sql: &str, arguments: A) -> (r: QueryScalar<DB, O, A>) where
    DB: Database + HasArguments + HasStatement,
    DB::Arguments: Arguments<Database = DB>,
    A: IntoArguments<DB>,
    O: FromRow<DB::Row>,

    ensures
        r.sql_spec() == sql@,
        !r.uses_statement(),
        r.arguments_model() == Some(arguments.model()),
        r.persistent_spec(),
{
    QueryScalar { inner: query_as_with(sql, arguments) }
}

/// Makes a query from a prepared statement, mapped to a single concrete
/// scalar type.
pub fn query_statement_scalar<DB, O>(statement: &DB::Statement) -> (r: QueryScalar<
    DB,
    O,
    <DB as HasArguments>::Arguments,
>) where
    DB: Database + HasArguments + HasStatement,
    DB::Arguments: Arguments<Database = DB>,
    O: FromRow<DB::Row>,

    ensures
        r.sql_spec() == DB::statement_sql_spec(statement),
        r.uses_statement(),
        r.arguments_model() is None,
        r.persistent_spec(),
{
    QueryScalar { inner: query_statement_as(statement) }
}

/// Makes a query from a prepared statement, with the given parameter
/// collection, mapped to a single concrete scalar type.
pub fn query_statement_scalar_with<DB, O, A>(statement: &DB::Statement, arguments: A) -> (r:
    QueryScalar<DB, O, A>) where
    DB: Database + HasArguments + HasStatement,
    DB::Arguments: Arguments<Database = DB>,
    A: IntoArguments<DB>,
    O: FromRow<DB::Row>,

    ensures
        r.sql_spec() == DB::statement_sql_spec(statement),
        r.uses_statement(),
        r.arguments_model() == Some(arguments.model()),
        r.persistent_spec(),
{
    QueryScalar { inner: query_statement_as_with(statement, arguments) }
}

} // verus!
