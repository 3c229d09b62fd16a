use command_core::commands::{
    create_user, get_users, hello_command, missing_table, name_fits, read_calls, require_lock,
    scan_failure, scan_step, write_calls, write_outcome, write_step,
};
use command_core::error::{CommandError, EngineError};
use command_core::router::{route, Command};
use command_core::state::AppState;

fn sorted(mut v: Vec<String>) -> Vec<String> {
    v.sort();
    v
}

#[test]
fn fresh_store_lists_no_users() {
    let state = AppState::open().ok().unwrap();
    let users = get_users(&state).ok().unwrap();
    assert!(users.is_empty());
}

#[test]
fn alice_then_bob() {
    let state = AppState::open().ok().unwrap();
    assert_eq!(create_user(&state, "Alice").ok().unwrap(), "success");
    assert_eq!(get_users(&state).ok().unwrap(), vec!["Alice".to_string()]);
    assert_eq!(create_user(&state, "Bob").ok().unwrap(), "success");
    let users = get_users(&state).ok().unwrap();
    assert_eq!(users.len(), 2);
    assert_eq!(sorted(users), vec!["Alice".to_string(), "Bob".to_string()]);
}

#[test]
fn same_name_twice_gives_two_entries() {
    let state = AppState::open().ok().unwrap();
    assert_eq!(create_user(&state, "Carol").ok().unwrap(), "success");
    assert_eq!(create_user(&state, "Carol").ok().unwrap(), "success");
    assert_eq!(get_users(&state).ok().unwrap(), vec!["Carol".to_string(), "Carol".to_string()]);
}

#[test]
fn distinct_names_are_all_listed_once() {
    let state = AppState::open().ok().unwrap();
    let names = ["d", "a", "c", "b", "e"];
    for n in names.iter() {
        assert_eq!(create_user(&state, n).ok().unwrap(), "success");
    }
    let users = sorted(get_users(&state).ok().unwrap());
    assert_eq!(users, vec!["a", "b", "c", "d", "e"]);
}

#[test]
fn quotes_in_a_name_are_stored_verbatim() {
    let state = AppState::open().ok().unwrap();
    let name = "O\"Brien'); DROP TABLE Users; --";
    assert_eq!(create_user(&state, name).ok().unwrap(), "success");
    assert_eq!(get_users(&state).ok().unwrap(), vec![name.to_string()]);
}

#[test]
fn empty_name_is_stored() {
    let state = AppState::open().ok().unwrap();
    assert_eq!(create_user(&state, "").ok().unwrap(), "success");
    assert_eq!(get_users(&state).ok().unwrap(), vec![String::new()]);
}

#[test]
fn hello_returns_body_verbatim() {
    let body = "{\"results\":[]}".to_string();
    assert_eq!(hello_command(Ok(body.clone())).ok().unwrap(), body);
}

#[test]
fn hello_network_failure_is_tagged() {
    let r = hello_command(Err("connection refused".to_string()));
    match r {
        Err(e) => {
            assert!(matches!(e, CommandError::NetworkFailure(_)));
            assert_eq!(e.tag(), "NetworkFailure");
            assert_eq!(e.to_message(), "NetworkFailure: connection refused");
        }
        Ok(_) => panic!("expected a network failure"),
    }
}

#[test]
fn serialized_error_strings() {
    let p = CommandError::PersistenceFailure("disk I/O error".to_string());
    assert_eq!(p.to_message(), "PersistenceFailure: disk I/O error");
    assert_eq!(p.message(), "disk I/O error");
    let d = CommandError::DispatchError("unknown command: x".to_string());
    assert_eq!(d.to_message(), "DispatchError: unknown command: x");
}

#[test]
fn engine_error_without_message() {
    let e = CommandError::from_engine(EngineError { code: Some(1), message: None });
    assert_eq!(e.to_message(), "PersistenceFailure: persistence engine error");
    let p = CommandError::poisoned();
    assert_eq!(p.to_message(), "PersistenceFailure: state lock poisoned");
}

#[test]
fn missing_table_is_recognised() {
    let e = EngineError { code: Some(1), message: Some("no such table: Users".to_string()) };
    assert!(missing_table(&e));
    let e = EngineError { code: Some(1), message: Some("syntax error".to_string()) };
    assert!(!missing_table(&e));
    let e = EngineError { code: Some(1), message: None };
    assert!(!missing_table(&e));
}

#[test]
fn scan_failure_outcomes() {
    let e = EngineError { code: Some(1), message: Some("no such table: Users".to_string()) };
    assert!(scan_failure(e).ok().unwrap().is_empty());
    let e = EngineError { code: Some(5), message: Some("database is locked".to_string()) };
    match scan_failure(e) {
        Err(CommandError::PersistenceFailure(m)) => assert_eq!(m, "database is locked"),
        _ => panic!("expected a persistence failure"),
    }
}

#[test]
fn write_outcome_values() {
    assert_eq!(write_outcome(Ok(())).ok().unwrap(), "success");
    let e = EngineError { code: Some(19), message: Some("constraint failed".to_string()) };
    match write_outcome(Err(e)) {
        Err(CommandError::PersistenceFailure(m)) => assert_eq!(m, "constraint failed"),
        _ => panic!("expected a persistence failure"),
    }
}

#[test]
fn route_known_commands() {
    assert!(matches!(route("get_users", None), Ok(Command::GetUsers)));
    match route("create_user", Some("Alice".to_string())) {
        Ok(Command::CreateUser(n)) => assert_eq!(n, "Alice"),
        _ => panic!("expected create_user"),
    }
    match route("hello_command", Some("x".to_string())) {
        Ok(Command::Hello(n)) => assert_eq!(n, "x"),
        _ => panic!("expected hello_command"),
    }
}

#[test]
fn route_failures() {
    match route("delete_user", None) {
        Err(e) => assert_eq!(e.to_message(), "DispatchError: unknown command: delete_user"),
        Ok(_) => panic!("expected a dispatch failure"),
    }
    match route("create_user", None) {
        Err(e) => assert_eq!(e.to_message(), "DispatchError: missing argument: name"),
        Ok(_) => panic!("expected a dispatch failure"),
    }
    assert!(route("get_user", None).is_err());
    assert!(route("get_users_", None).is_err());
}

#[test]
fn engine_calls_are_fixed() {
    let (schema, insert, position, value) = write_calls("O'Hara");
    assert_eq!(schema, "CREATE TABLE IF NOT EXISTS Users (id INTEGER PRIMARY KEY, name TEXT);");
    assert_eq!(insert, "INSERT INTO Users (name) VALUES (?);");
    assert_eq!(position, 1);
    assert_eq!(value, "O'Hara");
    assert_eq!(read_calls(), ("SELECT name FROM Users;", 0));
}

#[test]
fn lock_outcomes() {
    assert_eq!(require_lock(Some(7u8)).ok(), Some(7u8));
    match require_lock::<u8>(None) {
        Err(e) => assert_eq!(e.to_message(), "PersistenceFailure: state lock poisoned"),
        Ok(_) => panic!("expected a persistence failure"),
    }
}

#[test]
fn name_length_bound() {
    assert!(name_fits(""));
    assert!(name_fits("Alice"));
}

#[test]
fn write_steps() {
    assert!(write_step(Ok(())).is_none());
    let e = EngineError { code: Some(1), message: Some("near \"x\": syntax error".to_string()) };
    match write_step(Err(e)) {
        Some(Err(CommandError::PersistenceFailure(m))) => assert_eq!(m, "near \"x\": syntax error"),
        _ => panic!("expected a persistence failure"),
    }
}

#[test]
fn scan_steps() {
    let mut users: Vec<String> = vec!["Alice".to_string()];
    assert!(scan_step(&mut users, Ok(Some("Bob".to_string()))).is_none());
    assert_eq!(users, vec!["Alice".to_string(), "Bob".to_string()]);
    assert!(matches!(scan_step(&mut users, Ok(None)), Some(Ok(()))));
    assert_eq!(users.len(), 2);
    let e = EngineError { code: Some(11), message: None };
    match scan_step(&mut users, Err(e)) {
        Some(Err(err)) => {
            assert_eq!(err.to_message(), "PersistenceFailure: persistence engine error")
        }
        _ => panic!("expected a persistence failure"),
    }
    assert_eq!(users.len(), 2);
}
