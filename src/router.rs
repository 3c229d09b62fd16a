use vstd::prelude::*;
use vstd::string::StringExecFns;
use crate::error::CommandError;
use crate::text::same_text;

verus! {

/// A command that the router has matched by name, with its argument.
pub enum Command {
    /// `hello_command`, with the name it was invoked with.
    Hello(String),
    /// `create_user`, with the name of the user to store.
    CreateUser(String),
    /// `get_users`.
    GetUsers,
}

/// The message of the failure for a command name that nothing answers to.
pub open spec fn unknown_command_text(name: Seq<char>) -> Seq<char> {
    "unknown command: "@ + name
}

/// The message of the failure for a command invoked without its `name`.
pub open spec fn missing_name_text() -> Seq<char> {
    "missing argument: name"@
}

/// The routing table: the command that a name and an optional `name`
/// argument select, or `None` where the name is unknown or the argument
/// that it needs is missing.
pub open spec fn routed(command: Seq<char>, arg: Option<Seq<char>>) -> Option<(int, Option<Seq<char>>)> {
    if command == "hello_command"@ {
        match arg {
            Some(a) => Some((0, Some(a))),
            None => None,
        }
    } else if command == "create_user"@ {
        match arg {
            Some(a) => Some((1, Some(a))),
            None => None,
        }
    } else if command == "get_users"@ {
        Some((2, None))
    } else {
        None
    }
}

impl Command {
    /// The command as an entry of the routing table: which command, and its argument.
    pub open spec fn entry(self) -> (int, Option<Seq<char>>) {
        match self {
            Command::Hello(n) => (0, Some(n@)),
            Command::CreateUser(n) => (1, Some(n@)),
            Command::GetUsers => (2, None),
        }
    }
}

/// The text of an optional argument.
pub open spec fn arg_view(arg: Option<String>) -> Option<Seq<char>> {
    match arg {
        Some(a) => Some(a@),
        None => None,
    }
}

/// Whether the name is one that the routing table knows.
pub open spec fn is_known(command: Seq<char>) -> bool {
    command == "hello_command"@ || command == "create_user"@ || command == "get_users"@
}

/// Picks the command that a name selects. The `name` argument is what
/// `hello_command` and `create_user` are invoked with; `get_users` ignores
/// it. An unknown name, or a missing argument, gives a dispatch failure.
/// Reads no state.
pub fn route(command: &str, arg: Option<String>) -> (r: Result<Command, CommandError>)
    ensures
        r is Ok <==> routed(command@, arg_view(arg)) is Some,
        r is Ok ==> Some(r->Ok_0.entry()) == routed(command@, arg_view(arg)),
        r is Err ==> r->Err_0 is DispatchError,
        !is_known(command@) ==> r is Err && r->Err_0.message_of() == unknown_command_text(command@),
        is_known(command@) && r is Err ==> r->Err_0.message_of() == missing_name_text(),
{
    proof {
        reveal_strlit("hello_command");
        reveal_strlit("create_user");
        reveal_strlit("get_users");
        reveal_strlit("unknown command: ");
        reveal_strlit("missing argument: name");
    }
    if same_text(command, "hello_command") {
        match arg {
            Some(a) => Ok(Command::Hello(a)),
            None => Err(CommandError::DispatchError(String::from_str("missing argument: name"))),
        }
    } else if same_text(command, "create_user") {
        match arg {
            Some(a) => Ok(Command::CreateUser(a)),
            None => Err(CommandError::DispatchError(String::from_str("missing argument: name"))),
        }
    } else if same_text(command, "get_users") {
        Ok(Command::GetUsers)
    } else {
        Err(CommandError::DispatchError(String::from_str("unknown command: ").concat(command)))
    }
}

} // verus!
