use vstd::prelude::*;
use std::sync::{RwLock, RwLockReadGuard, RwLockWriteGuard};
use sqlite::ConnectionThreadSafe;
use crate::engine::open_store;
use crate::error::{CommandError, EngineError};

verus! {

#[verifier::external_type_specification]
#[verifier::external_body]
#[verifier::reject_recursive_types(T)]
pub struct ExRwLock<T: ?Sized>(RwLock<T>);

#[verifier::external_type_specification]
#[verifier::external_body]
#[verifier::reject_recursive_types(T)]
pub struct ExRwLockReadGuard<'a, T: ?Sized>(RwLockReadGuard<'a, T>);

#[verifier::external_type_specification]
#[verifier::external_body]
#[verifier::reject_recursive_types(T)]
pub struct ExRwLockWriteGuard<'a, T: ?Sized + 'a>(RwLockWriteGuard<'a, T>);

/// The process's one piece of mutable application state: the handle of the
/// store that holds the users.
pub struct InnerAppState {
    pub db: ConnectionThreadSafe,
}

/// The application state behind a read/write lock: any number of readers,
/// or one writer, at a time.
pub struct AppState(pub RwLock<InnerAppState>);

/// Relies on RwLock::new: a lock, not yet held, around the value.
#[verifier::external_body]
fn new_lock(inner: InnerAppState) -> (r: RwLock<InnerAppState>) {
    RwLock::new(inner)
}

/// Relies on RwLock::read: blocks until no writer holds the lock; `None`
/// where a prior holder panicked while holding it.
#[verifier::external_body]
pub(crate) fn acquire_read(lock: &RwLock<InnerAppState>) -> (r: Option<
    RwLockReadGuard<'_, InnerAppState>,
>) {
    match lock.read() {
        Ok(g) => Some(g),
        Err(_) => None,
    }
}

/// Relies on RwLock::write: blocks until no reader or writer holds the lock;
/// `None` where a prior holder panicked while holding it.
#[verifier::external_body]
pub(crate) fn acquire_write(lock: &RwLock<InnerAppState>) -> (r: Option<
    RwLockWriteGuard<'_, InnerAppState>,
>) {
    match lock.write() {
        Ok(g) => Some(g),
        Err(_) => None,
    }
}

/// Relies on RwLockReadGuard's Deref: the state the guard gives shared access to.
#[verifier::external_body]
pub(crate) fn read_view<'a>(g: &'a RwLockReadGuard<'_, InnerAppState>) -> (r: &'a InnerAppState) {
    &**g
}

/// Relies on RwLockWriteGuard's Deref: the state the guard gives exclusive access to.
#[verifier::external_body]
pub(crate) fn write_view<'a>(g: &'a RwLockWriteGuard<'_, InnerAppState>) -> (r: &'a InnerAppState) {
    &**g
}

/// The path that names a fresh store held in memory for as long as its
/// connection lives.
pub open spec fn memory_path_text() -> Seq<char> {
    ":memory:"@
}

/// The path of the store that `AppState::open` opens.
pub fn memory_path() -> (r: &'static str)
    ensures
        r@ == memory_path_text(),
{
    proof {
        reveal_strlit(":memory:");
    }
    ":memory:"
}

impl AppState {
    /// A fresh state around an empty in-memory store, not yet locked by anyone.
    /// Fails with a persistence failure where the store cannot be opened.
    pub fn open() -> (r: Result<AppState, CommandError>)
        ensures
            r is Err ==> r->Err_0 is PersistenceFailure,
    {
        match open_store(memory_path()) {
            Ok(db) => Ok(AppState(new_lock(InnerAppState { db }))),
            Err(e) => Err(CommandError::from_engine(e)),
        }
    }
}

} // verus!
