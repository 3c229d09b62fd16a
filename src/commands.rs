use vstd::prelude::*;
use vstd::string::{StrSliceExecFns, StringExecFns};
use crate::engine::{bind_text, execute, prepare, read_text, step};
use crate::error::{engine_text, poisoned_text, CommandError, EngineError};
use crate::state::{acquire_read, acquire_write, read_view, write_view, AppState};
use crate::text::{is_prefix, starts_with_text};

verus! {

/// What `create_user` answers when the user was stored.
pub open spec fn success_text() -> Seq<char> {
    "success"@
}

/// The start of the engine's message when a statement names a table that
/// does not exist yet.
pub open spec fn missing_table_text() -> Seq<char> {
    "no such table"@
}

/// Whether an engine failure says that a table does not exist.
pub open spec fn is_missing_table(e: EngineError) -> bool {
    match e.message {
        Some(m) => is_prefix(missing_table_text(), m@),
        None => false,
    }
}

/// Whether the engine's failure says that a table does not exist.
pub fn missing_table(e: &EngineError) -> (r: bool)
    ensures
        r == is_missing_table(*e),
{
    proof {
        reveal_strlit("no such table");
    }
    match &e.message {
        Some(m) => starts_with_text(m.as_str(), "no such table"),
        None => false,
    }
}

/// The answer of `create_user` once the statements have run: `"success"`
/// where they all succeeded, else a persistence failure that carries what the
/// engine said.
pub fn write_outcome(done: Result<(), EngineError>) -> (r: Result<String, CommandError>)
    ensures
        done is Ok <==> r is Ok,
        r is Ok ==> r->Ok_0@ == success_text(),
        done is Err ==> r is Err && r->Err_0 is PersistenceFailure
            && r->Err_0.message_of() == engine_text(done->Err_0),
{
    proof {
        reveal_strlit("success");
    }
    match done {
        Ok(()) => Ok(String::from_str("success")),
        Err(e) => Err(CommandError::from_engine(e)),
    }
}

/// The answer of `get_users` when the scan could not start: no users where
/// the table does not exist yet, else a persistence failure that carries
/// what the engine said.
pub fn scan_failure(e: EngineError) -> (r: Result<Vec<String>, CommandError>)
    ensures
        is_missing_table(e) <==> r is Ok,
        r is Ok ==> r->Ok_0@.len() == 0,
        !is_missing_table(e) ==> r is Err && r->Err_0 is PersistenceFailure
            && r->Err_0.message_of() == engine_text(e),
{
    if missing_table(&e) {
        Ok(Vec::new())
    } else {
        Err(CommandError::from_engine(e))
    }
}

/// The statement that creates the users table unless it is already there.
pub open spec fn create_users_sql() -> Seq<char> {
    "CREATE TABLE IF NOT EXISTS Users (id INTEGER PRIMARY KEY, name TEXT);"@
}

/// The statement that inserts one user; its name is the parameter at
/// position 1, bound out of band and never spliced into the text.
pub open spec fn insert_user_sql() -> Seq<char> {
    "INSERT INTO Users (name) VALUES (?);"@
}

/// The query that reads the name of every user.
pub open spec fn select_names_sql() -> Seq<char> {
    "SELECT name FROM Users;"@
}

/// The longest name, in characters, that `create_user` hands to the engine.
pub open spec fn max_name_len() -> nat {
    250_000_000
}

/// The message of the failure for a name longer than `max_name_len`.
pub open spec fn name_too_long_text() -> Seq<char> {
    "name too long"@
}

/// The message of the failure for a scan with more rows than a sequence can hold.
pub open spec fn too_many_rows_text() -> Seq<char> {
    "too many rows"@
}

/// What `create_user` hands to the engine, in order: the schema statement,
/// run first; the insert statement, prepared next; the parameter position
/// and the text bound to it.
pub fn write_calls(name: &str) -> (r: (&'static str, &'static str, usize, &str))
    ensures
        r.0@ == create_users_sql(),
        r.1@ == insert_user_sql(),
        r.2 == 1,
        r.3@ == name@,
{
    proof {
        reveal_strlit("CREATE TABLE IF NOT EXISTS Users (id INTEGER PRIMARY KEY, name TEXT);");
        reveal_strlit("INSERT INTO Users (name) VALUES (?);");
    }
    (
        "CREATE TABLE IF NOT EXISTS Users (id INTEGER PRIMARY KEY, name TEXT);",
        "INSERT INTO Users (name) VALUES (?);",
        1,
        name,
    )
}

/// What `get_users` hands to the engine: the query, and the column of each
/// row that holds the name.
pub fn read_calls() -> (r: (&'static str, usize))
    ensures
        r.0@ == select_names_sql(),
        r.1 == 0,
{
    proof {
        reveal_strlit("SELECT name FROM Users;");
    }
    ("SELECT name FROM Users;", 0)
}

/// The guard where the lock was acquired; a persistence failure where a
/// prior holder panicked while holding it.
pub fn require_lock<G>(acquired: Option<G>) -> (r: Result<G, CommandError>)
    ensures
        acquired is Some <==> r is Ok,
        acquired is Some ==> r->Ok_0 == acquired->Some_0,
        acquired is None ==> r is Err && r->Err_0 is PersistenceFailure
            && r->Err_0.message_of() == poisoned_text(),
{
    match acquired {
        Some(g) => Ok(g),
        None => Err(CommandError::poisoned()),
    }
}

/// Whether a name is short enough to hand to the engine.
pub fn name_fits(name: &str) -> (r: bool)
    ensures
        r == (name@.len() <= max_name_len()),
{
    name.unicode_len() <= 250_000_000
}

/// One step of `create_user` after an engine call: `None` to go on where it
/// succeeded, else the answer that stops the command there.
pub fn write_step(done: Result<(), EngineError>) -> (r: Option<Result<String, CommandError>>)
    ensures
        done is Ok <==> r is None,
        done is Err ==> r is Some && r->Some_0 is Err && r->Some_0->Err_0 is PersistenceFailure
            && r->Some_0->Err_0.message_of() == engine_text(done->Err_0),
{
    match done {
        Ok(()) => None,
        Err(e) => Some(write_outcome(Err(e))),
    }
}

/// One step of the scan in `get_users`, given what the engine answered for
/// the next row: a name is appended and the scan goes on (`None`); the end
/// of the rows finishes it; a failure, or a row beyond what a sequence can
/// hold, ends it with a persistence failure.
pub fn scan_step(users: &mut Vec<String>, row: Result<Option<String>, EngineError>) -> (r: Option<
    Result<(), CommandError>,
>)
    ensures
        r is None <==> (row is Ok && row->Ok_0 is Some && old(users)@.len() < usize::MAX),
        r is None ==> final(users)@ == old(users)@.push(row->Ok_0->Some_0),
        r is Some ==> final(users)@ == old(users)@,
        r is Some && r->Some_0 is Err ==> r->Some_0->Err_0 is PersistenceFailure,
        row is Ok && row->Ok_0 is None ==> r == Some(Ok::<(), CommandError>(())),
        row is Ok && row->Ok_0 is Some && old(users)@.len() == usize::MAX ==> r is Some
            && r->Some_0 is Err && r->Some_0->Err_0 is PersistenceFailure
            && r->Some_0->Err_0.message_of() == too_many_rows_text(),
        row is Err ==> r is Some && r->Some_0 is Err && r->Some_0->Err_0 is PersistenceFailure
            && r->Some_0->Err_0.message_of() == engine_text(row->Err_0),
{
    proof {
        reveal_strlit("too many rows");
    }
    match row {
        Ok(Some(name)) => {
            if users.len() == usize::MAX {
                Some(Err(CommandError::PersistenceFailure(String::from_str("too many rows"))))
            } else {
                users.push(name);
                None
            }
        },
        Ok(None) => Some(Ok(())),
        Err(e) => Some(Err(CommandError::from_engine(e))),
    }
}

/// Stores a user of the given name. Holds the state's write lock for the
/// whole of it and makes the engine calls of `write_calls`: the table is
/// created if it is missing, then the name is bound into the insert, and no
/// reader sees one step without the other. Each call's failure is handled
/// by `write_step` and stops the command there. Answers `"success"`; a
/// poisoned lock, a name longer than `max_name_len`, or a failed statement
/// gives a persistence failure.
pub fn create_user(state: &AppState, name: &str) -> (r: Result<String, CommandError>)
    ensures
        r is Ok ==> r->Ok_0@ == success_text(),
        r is Err ==> r->Err_0 is PersistenceFailure,
        name@.len() > max_name_len() ==> r is Err && r->Err_0.message_of() == name_too_long_text(),
{
    proof {
        reveal_strlit("name too long");
    }
    if !name_fits(name) {
        return Err(CommandError::PersistenceFailure(String::from_str("name too long")));
    }
    let guard = match require_lock(acquire_write(&state.0)) {
        Ok(g) => g,
        Err(e) => return Err(e),
    };
    let inner = write_view(&guard);
    let (schema, insert, position, value) = write_calls(name);
    match write_step(execute(&inner.db, schema)) {
        Some(r) => return r,
        None => {},
    }
    let mut stmt = match prepare(&inner.db, insert) {
        Ok(s) => s,
        Err(e) => return write_outcome(Err(e)),
    };
    match write_step(bind_text(&mut stmt, position, value)) {
        Some(r) => return r,
        None => {},
    }
    match step(&mut stmt) {
        Ok(_) => write_outcome(Ok(())),
        Err(e) => write_outcome(Err(e)),
    }
}

/// The names of all users, in the order the store yields them. Holds the
/// state's read lock for the whole scan and runs the query of `read_calls`;
/// what the engine answers for each row goes through `scan_step`, so a
/// failed step or read gives an error and never a partial list. A store in
/// which no user was ever created answers with no names (`scan_failure`); a
/// poisoned lock gives a persistence failure.
pub fn get_users(state: &AppState) -> (r: Result<Vec<String>, CommandError>)
    ensures
        r is Err ==> r->Err_0 is PersistenceFailure,
{
    let guard = match require_lock(acquire_read(&state.0)) {
        Ok(g) => g,
        Err(e) => return Err(e),
    };
    let inner = read_view(&guard);
    let (query, column) = read_calls();
    let mut stmt = match prepare(&inner.db, query) {
        Ok(s) => s,
        Err(e) => return scan_failure(e),
    };
    let mut users: Vec<String> = Vec::new();
    loop
        decreases usize::MAX - users@.len(),
    {
        let row = match step(&mut stmt) {
            Ok(true) => match read_text(&stmt, column) {
                Ok(n) => Ok(Some(n)),
                Err(e) => Err(e),
            },
            Ok(false) => Ok(None),
            Err(e) => Err(e),
        };
        match scan_step(&mut users, row) {
            None => {},
            Some(Ok(())) => return Ok(users),
            Some(Err(e)) => return Err(e),
        }
    }
}

/// The answer of `hello_command` once the fetch has completed: the body
/// verbatim where it succeeded, else a network failure that carries the
/// client's message. The name it is invoked with takes no part.
pub fn hello_command(fetched: Result<String, String>) -> (r: Result<String, CommandError>)
    ensures
        fetched is Ok <==> r is Ok,
        fetched is Ok ==> r->Ok_0 == fetched->Ok_0,
        fetched is Err ==> r is Err && r->Err_0 == CommandError::NetworkFailure(fetched->Err_0),
{
    match fetched {
        Ok(body) => Ok(body),
        Err(m) => Err(CommandError::NetworkFailure(m)),
    }
}

} // verus!
