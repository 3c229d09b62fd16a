use vstd::prelude::*;
use sqlite::{ConnectionThreadSafe, Statement};
use crate::error::EngineError;

verus! {

#[verifier::external_type_specification]
#[verifier::external_body]
pub struct ExConnectionThreadSafe(ConnectionThreadSafe);

#[verifier::external_type_specification]
#[verifier::external_body]
pub struct ExStatement<'l>(Statement<'l>);

/// Relies on sqlite::Connection::open_thread_safe: opens a connection to the
/// store at `path` that serialises its own use across threads.
#[verifier::external_body]
pub(crate) fn open_store(path: &str) -> (r: Result<ConnectionThreadSafe, EngineError>) {
    match sqlite::Connection::open_thread_safe(path) {
        Ok(c) => Ok(c),
        Err(e) => Err(EngineError { code: e.code, message: e.message }),
    }
}

/// Relies on sqlite::Connection::execute: runs a statement, discarding any rows.
#[verifier::external_body]
pub(crate) fn execute(db: &ConnectionThreadSafe, sql: &str) -> (r: Result<(), EngineError>) {
    match db.execute(sql) {
        Ok(()) => Ok(()),
        Err(e) => Err(EngineError { code: e.code, message: e.message }),
    }
}

/// Relies on sqlite::Connection::prepare: compiles a statement for stepping.
#[verifier::external_body]
pub(crate) fn prepare<'a>(db: &'a ConnectionThreadSafe, sql: &str) -> (r: Result<
    Statement<'a>,
    EngineError,
>) {
    match db.prepare(sql) {
        Ok(s) => Ok(s),
        Err(e) => Err(EngineError { code: e.code, message: e.message }),
    }
}

/// Relies on sqlite::Statement::bind with a (position, text) pair: binds the
/// text, out of band from the statement, to the parameter at that position.
/// The crate hands the byte length to the engine as a C `int`, so the text is
/// held well under 2^31 bytes (four bytes at most for each character).
#[verifier::external_body]
pub(crate) fn bind_text(stmt: &mut Statement<'_>, position: usize, value: &str) -> (r: Result<
    (),
    EngineError,
>)
    requires
        value@.len() <= 250_000_000,
{
    match stmt.bind((position, value)) {
        Ok(()) => Ok(()),
        Err(e) => Err(EngineError { code: e.code, message: e.message }),
    }
}

/// Relies on sqlite::Statement::next: `true` where a row is available to
/// read, `false` where the statement has been evaluated entirely.
#[verifier::external_body]
pub(crate) fn step(stmt: &mut Statement<'_>) -> (r: Result<bool, EngineError>) {
    match stmt.next() {
        Ok(sqlite::State::Row) => Ok(true),
        Ok(sqlite::State::Done) => Ok(false),
        Err(e) => Err(EngineError { code: e.code, message: e.message }),
    }
}

/// Relies on sqlite::Statement::read into a String: the text of a column of
/// the current row.
#[verifier::external_body]
pub(crate) fn read_text(stmt: &Statement<'_>, column: usize) -> (r: Result<String, EngineError>) {
    match stmt.read::<String, usize>(column) {
        Ok(s) => Ok(s),
        Err(e) => Err(EngineError { code: e.code, message: e.message }),
    }
}

} // verus!
