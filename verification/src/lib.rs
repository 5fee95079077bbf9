//! Generic database-access abstraction layer: a type-family contract for SQL
//! backends, a value-encoding and argument-binding protocol, a runtime-bridging
//! driver that defers backend selection to connection time, and the query
//! builder and fetch operations on top of them.

pub mod any;
pub mod arguments;
pub mod database;
pub mod either;
pub mod encode;
pub mod error;
pub mod executor;
pub mod from_row;
pub mod mssql;
pub mod mysql;
pub mod postgres;
pub mod query;
pub mod query_as;
pub mod query_scalar;
pub mod sqlite;
pub mod types;
pub mod wire;
