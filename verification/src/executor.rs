use vstd::prelude::*;

use crate::arguments::{Arguments, BoundValue};
use crate::database::{Database, HasArguments, HasStatement};
use crate::either::Either;
use crate::error::Error;

verus! {

/// A type whose value may be executed against a backend: it carries SQL text
/// or a prepared statement, an optional argument list, and a persistence flag
/// that asks the executor to cache the prepared form.
pub trait Execute<DB>: Sized where
    DB: Database + HasArguments + HasStatement,
    DB::Arguments: Arguments<Database = DB>,
 {
    /// The SQL text to run.
    spec fn sql_spec(&self) -> Seq<char>;

    /// Whether this executes a prepared statement rather than bare text.
    spec fn uses_statement(&self) -> bool;

    /// The bound parameters, if any were supplied.
    spec fn arguments_model(&self) -> Option<Seq<BoundValue>>;

    /// Whether the executor should cache the prepared form.
    spec fn persistent_spec(&self) -> bool;

    /// The SQL text to run.
    fn sql(&self) -> (r: &String)
        ensures
            r@ == self.sql_spec(),
    ;

    /// The prepared statement to run, if one was supplied; its SQL text is
    /// the query's own.
    fn statement(&self) -> (r: Option<&DB::Statement>)
        ensures
            r is Some <==> self.uses_statement(),
            match r {
                Some(st) => DB::statement_sql_spec(st) == self.sql_spec(),
                None => true,
            },
    ;

    /// Hands the argument list over to the executor, converted into the
    /// family's native form; the list can be taken only once.
    fn take_arguments(&mut self) -> (r: Option<DB::Arguments>)
        ensures
            final(self).arguments_model() is None,
            final(self).sql_spec() == old(self).sql_spec(),
            final(self).persistent_spec() == old(self).persistent_spec(),
            match r {
                Some(a) => old(self).arguments_model() == Some(
                    <DB::Arguments as Arguments>::model(&a),
                ),
                None => old(self).arguments_model() is None,
            },
    ;

    /// Whether the executor should cache the prepared form.
    fn persistent(&self) -> (r: bool)
        ensures
            r == self.persistent_spec(),
    ;
}

/// What a result stream begins with: the first produced row, the error met
/// before any row, or nothing at all.
pub open spec fn first_row_spec<D, R>(items: Seq<Result<Either<D, R>, Error>>) -> Result<
    Option<R>,
    Error,
>
    decreases items.len(),
{
    if items.len() == 0 {
        Ok(None)
    } else {
        match items[0] {
            Err(e) => Err(e),
            Ok(Either::Right(row)) => Ok(Some(row)),
            Ok(Either::Left(_)) => first_row_spec(items.drop_first()),
        }
    }
}

/// A provider of query execution: something able to run SQL against a backend
/// of its family and produce the result stream.
///
/// The stream is modelled as the finite item sequence the execution produces:
/// each item is either the completion summary of one statement or one produced
/// row, in execution order; rows of statement `k` precede its completion
/// marker and everything of statement `k + 1`.  What the sequence holds for a
/// given query is the executor's own affair (`many_spec`); the law below ties
/// the zero-or-one fast path to that sequence.
pub trait Executor: Sized where
    <Self::Database as HasArguments>::Arguments: Arguments<Database = Self::Database>,
 {
    type Database: Database + HasArguments + HasStatement;

    /// The item sequence this executor produces for a query.
    spec fn many_spec(
        &self,
        sql: Seq<char>,
        args: Option<Seq<BoundValue>>,
        persistent: bool,
    ) -> Seq<
        Result<
            Either<<Self::Database as Database>::Done, <Self::Database as Database>::Row>,
            Error,
        >,
    >;

    /// The outcome of the optimized zero-or-one mode for a query.
    spec fn optional_spec(
        &self,
        sql: Seq<char>,
        args: Option<Seq<BoundValue>>,
        persistent: bool,
    ) -> Result<Option<<Self::Database as Database>::Row>, Error>;

    /// The zero-or-one fast path agrees with the full stream: it yields the
    /// first produced row, the error met before any row, or nothing.
    proof fn optional_consistency(
        &self,
        sql: Seq<char>,
        args: Option<Seq<BoundValue>>,
        persistent: bool,
    )
        ensures
            self.optional_spec(sql, args, persistent) == first_row_spec(
                self.many_spec(sql, args, persistent),
            ),
    ;

    /// Executes the query, possibly multi-statement, and produces the whole
    /// result stream.
    fn fetch_many_items<Q: Execute<Self::Database>>(self, query: Q) -> (r: Vec<
        Result<
            Either<<Self::Database as Database>::Done, <Self::Database as Database>::Row>,
            Error,
        >,
    >)
        ensures
            r@ == self.many_spec(
                query.sql_spec(),
                query.arguments_model(),
                query.persistent_spec(),
            ),
    ;

    /// Executes the query in the optimized zero-or-one mode.
    fn fetch_optional_item<Q: Execute<Self::Database>>(self, query: Q) -> (r: Result<
        Option<<Self::Database as Database>::Row>,
        Error,
    >)
        ensures
            r == self.optional_spec(
                query.sql_spec(),
                query.arguments_model(),
                query.persistent_spec(),
            ),
    ;
}

/// An executor scripted in advance: it answers every query with a fixed item
/// sequence.  It backs the tests of the fetch operations; nothing else in the
/// crate depends on it.
pub struct StubExecutor<DB: Database> {
    /// The items the next execution will produce, in order.
    pub items: Vec<Result<Either<DB::Done, DB::Row>, Error>>,
}

impl<DB> Executor for StubExecutor<DB> where
    DB: Database + HasArguments + HasStatement,
    DB::Arguments: Arguments<Database = DB>,
 {
    type Database = DB;

    open spec fn many_spec(
        &self,
        sql: Seq<char>,
        args: Option<Seq<BoundValue>>,
        persistent: bool,
    ) -> Seq<Result<Either<DB::Done, DB::Row>, Error>> {
        self.items@
    }

    open spec fn optional_spec(
        &self,
        sql: Seq<char>,
        args: Option<Seq<BoundValue>>,
        persistent: bool,
    ) -> Result<Option<DB::Row>, Error> {
        first_row_spec(self.items@)
    }

    proof fn optional_consistency(
        &self,
        sql: Seq<char>,
        args: Option<Seq<BoundValue>>,
        persistent: bool,
    ) {
    }

    fn fetch_many_items<Q: Execute<DB>>(self, query: Q) -> (r: Vec<
        Result<Either<DB::Done, DB::Row>, Error>,
    >) {
        self.items
    }

    fn fetch_optional_item<Q: Execute<DB>>(self, query: Q) -> (r: Result<
        Option<DB::Row>,
        Error,
    >) {
        let ghost items0 = self.items@;
        let StubExecutor { items: mut items } = self;
        loop
            invariant
                first_row_spec(items0) == first_row_spec(items@),
                self.optional_spec(
                    query.sql_spec(),
                    query.arguments_model(),
                    query.persistent_spec(),
                ) == first_row_spec(items0),
            decreases items@.len(),
        {
            if items.len() == 0 {
                return Ok(None);
            }
            let ghost pre = items@;
            let it = items.remove(0);
            proof {
                assert(items@ =~= pre.drop_first());
            }
            match it {
                Err(e) => {
                    return Err(e);
                },
                Ok(Either::Right(row)) => {
                    return Ok(Some(row));
                },
                Ok(Either::Left(_)) => {},
            }
        }
    }
}

} // verus!
