use vstd::prelude::*;
use vstd::string::StringExecFns;

verus! {

/// What the persistence engine reported when a statement failed: its result
/// code and its message, either of which may be absent.
pub struct EngineError {
    pub code: Option<isize>,
    pub message: Option<String>,
}

/// The failures a command can report to its caller.
pub enum CommandError {
    /// The remote fetch could not complete.
    NetworkFailure(String),
    /// A statement, a query or the acquisition of the state lock failed.
    PersistenceFailure(String),
    /// No command of the requested name exists, or its arguments are missing.
    DispatchError(String),
}

/// The text used for an engine failure that carries no message of its own.
pub open spec fn unnamed_engine_failure() -> Seq<char> {
    "persistence engine error"@
}

/// The human-readable text of an engine failure.
pub open spec fn engine_text(e: EngineError) -> Seq<char> {
    match e.message {
        Some(m) => m@,
        None => unnamed_engine_failure(),
    }
}

/// The text of the lock failure reported when a prior holder of the state
/// lock panicked while holding it.
pub open spec fn poisoned_text() -> Seq<char> {
    "state lock poisoned"@
}

impl CommandError {
    /// The tag that names the kind of failure.
    pub open spec fn tag_of(self) -> Seq<char> {
        match self {
            CommandError::NetworkFailure(_) => "NetworkFailure"@,
            CommandError::PersistenceFailure(_) => "PersistenceFailure"@,
            CommandError::DispatchError(_) => "DispatchError"@,
        }
    }

    /// The message that the failure carries.
    pub open spec fn message_of(self) -> Seq<char> {
        match self {
            CommandError::NetworkFailure(m) => m@,
            CommandError::PersistenceFailure(m) => m@,
            CommandError::DispatchError(m) => m@,
        }
    }

    /// The single string a failure becomes at the boundary: its tag, a colon
    /// and a space, then its message.
    pub open spec fn serialized(self) -> Seq<char> {
        self.tag_of() + ": "@ + self.message_of()
    }

    /// The tag that names the kind of failure.
    pub fn tag(&self) -> (r: String)
        ensures
            r@ == self.tag_of(),
    {
        proof {
            reveal_strlit("NetworkFailure");
            reveal_strlit("PersistenceFailure");
            reveal_strlit("DispatchError");
        }
        match self {
            CommandError::NetworkFailure(_) => String::from_str("NetworkFailure"),
            CommandError::PersistenceFailure(_) => String::from_str("PersistenceFailure"),
            CommandError::DispatchError(_) => String::from_str("DispatchError"),
        }
    }

    /// The message that the failure carries.
    pub fn message(&self) -> (r: String)
        ensures
            r@ == self.message_of(),
    {
        match self {
            CommandError::NetworkFailure(m) => m.clone(),
            CommandError::PersistenceFailure(m) => m.clone(),
            CommandError::DispatchError(m) => m.clone(),
        }
    }

    /// The failure as the one string handed back to the caller.
    pub fn to_message(&self) -> (r: String)
        ensures
            r@ == self.serialized(),
    {
        proof {
            reveal_strlit(": ");
        }
        let t = self.tag();
        let m = self.message();
        let r = t.concat(": ").concat(m.as_str());
        r
    }

    /// A persistence failure that reports what the engine said.
    pub fn from_engine(e: EngineError) -> (r: CommandError)
        ensures
            r is PersistenceFailure,
            r.message_of() == engine_text(e),
    {
        proof {
            reveal_strlit("persistence engine error");
        }
        match e.message {
            Some(m) => CommandError::PersistenceFailure(m),
            None => CommandError::PersistenceFailure(String::from_str("persistence engine error")),
        }
    }

    /// The persistence failure reported when the state lock is poisoned.
    pub fn poisoned() -> (r: CommandError)
        ensures
            r is PersistenceFailure,
            r.message_of() == poisoned_text(),
    {
        proof {
            reveal_strlit("state lock poisoned");
        }
        CommandError::PersistenceFailure(String::from_str("state lock poisoned"))
    }
}

} // verus!
