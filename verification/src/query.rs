use vstd::prelude::*;

use crate::arguments::{Arguments, BoundValue, IntoArguments};
use crate::database::{Database, HasArguments, HasStatement};
use crate::either::Either;
use crate::encode::Encode;
use crate::executor::Execute;
use crate::types::Type;

verus! {

/// Raw SQL query with bind parameters.
///
/// Constructed lazily by [`query`] and its variants, mutated only by `bind`,
/// and consumed exactly once by a fetch operation; no execution happens until
/// then.
#[must_use]
pub struct Query<DB, A> where DB: Database + HasArguments + HasStatement {
    pub(crate) statement: Either<String, DB::Statement>,
    pub(crate) arguments: Option<A>,
    pub(crate) persistent: bool,
}

impl<DB, A> Execute<DB> for Query<DB, A> where
    DB: Database + HasArguments + HasStatement,
    DB::Arguments: Arguments<Database = DB>,
    A: IntoArguments<DB>,
 {
    closed spec fn sql_spec(&self) -> Seq<char> {
        match self.statement {
            Either::Left(s) => s@,
            Either::Right(st) => DB::statement_sql_spec(&st),
        }
    }

    closed spec fn uses_statement(&self) -> bool {
        self.statement is Right
    }

    closed spec fn arguments_model(&self) -> Option<Seq<BoundValue>> {
        match self.arguments {
            Some(a) => Some(a.model()),
            None => None,
        }
    }

    closed spec fn persistent_spec(&self) -> bool {
        self.persistent
    }

    fn sql(&self) -> (r: &String) {
        match &self.statement {
            Either::Left(s) => s,
            Either::Right(st) => DB::statement_sql(st),
        }
    }

    fn statement(&self) -> (r: Option<&DB::Statement>) {
        match &self.statement {
            Either::Right(st) => Some(st),
            Either::Left(_) => None,
        }
    }

    fn take_arguments(&mut self) -> (r: Option<DB::Arguments>) {
        let a = self.arguments.take();
        match a {
            Some(x) => Some(x.into_arguments()),
            None => None,
        }
    }

    fn persistent(&self) -> (r: bool) {
        self.persistent
    }
}

impl<DB> Query<DB, <DB as HasArguments>::Arguments> where
    DB: Database + HasArguments + HasStatement,
    DB::Arguments: Arguments<Database = DB>,
 {
    /// Binds a value for use with this query, in the next positional slot.
    ///
    /// The argument list is created lazily on the first bind; every bind
    /// appends exactly one parameter, in call order.
    pub fn bind<T>(self, value: T) -> (r: Self) where T: Encode<DB> + Type<DB>,
        ensures
            r.sql_spec() == self.sql_spec(),
            r.uses_statement() == self.uses_statement(),
            r.persistent_spec() == self.persistent_spec(),
            r.arguments_model() == Some(
                match self.arguments_model() {
                    Some(m) => m.push(value.bound_spec()),
                    None => seq![value.bound_spec()],
                },
            ),
    {
        let mut this = self;
        let mut args = match this.arguments {
            Some(a) => a,
            None => Arguments::empty(),
        };
        args.add(value);
        this.arguments = Some(args);
        proof {
            assert(seq![value.bound_spec()] =~= Seq::<BoundValue>::empty().push(
                value.bound_spec(),
            ));
        }
        this
    }
}

/// Makes a query from bare SQL text, with no parameters bound yet.
pub fn query<DB>(sql: &str) -> (r: Query<DB, <DB as HasArguments>::Arguments>) where
    DB: Database + HasArguments + HasStatement,
    DB::Arguments: Arguments<Database = DB>,

    ensures
        r.sql_spec() == sql@,
        !r.uses_statement(),
        r.arguments_model() is None,
        r.persistent_spec(),
{
    Query { statement: Either::Left(sql.to_owned()), arguments: None, persistent: true }
}

/// Makes a query from SQL text together with an already built parameter
/// collection.
pub fn query_with<DB, A>(sql: &str, arguments: A) -> (r: Query<DB, A>) where
    DB: Database + HasArguments + HasStatement,
    DB::Arguments: Arguments<Database = DB>,
    A: IntoArguments<DB>,

    ensures
        r.sql_spec() == sql@,
        !r.uses_statement(),
        r.arguments_model() == Some(arguments.model()),
        r.persistent_spec(),
{
    Query { statement: Either::Left(sql.to_owned()), arguments: Some(arguments), persistent: true }
}

/// Makes a query from a prepared statement, with no parameters bound yet.
pub fn query_statement<DB>(statement: &DB::Statement) -> (r: Query<
    DB,
    <DB as HasArguments>::Arguments,
>) where
    DB: Database + HasArguments + HasStatement,
    DB::Arguments: Arguments<Database = DB>,

    ensures
        r.sql_spec() == DB::statement_sql_spec(statement),
        r.uses_statement(),
        r.arguments_model() is None,
        r.persistent_spec(),
{
    Query {
        statement: Either::Right(DB::clone_statement(statement)),
        arguments: None,
        persistent: true,
    }
}

/// Makes a query from a prepared statement together with an already built
/// parameter collection.
pub fn query_statement_with<DB, A>(statement: &DB::Statement, arguments: A) -> (r: Query<
    DB,
    A,
>) where
    DB: Database + HasArguments + HasStatement,
    DB::Arguments: Arguments<Database = DB>,
    A: IntoArguments<DB>,

    ensures
        r.sql_spec() == DB::statement_sql_spec(statement),
        r.uses_statement(),
        r.arguments_model() == Some(arguments.model()),
        r.persistent_spec(),
{
    Query {
        statement: Either::Right(DB::clone_statement(statement)),
        arguments: Some(arguments),
        persistent: true,
    }
}

} // verus!
