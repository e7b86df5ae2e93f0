use overpass_parser_ruby::dialect::{
    build_descriptor, release_descriptor, Dialect, DialectDescriptor,
};
use overpass_parser_ruby::error::{BridgeError, StructuralFault};
use overpass_parser_ruby::registry::{CallbackHandle, CallbackRegistry};
use overpass_parser_ruby::session::{callback_failure, CompileSession};

fn upper(s: &str) -> String {
    s.to_uppercase()
}

fn lower(s: &str) -> String {
    s.to_lowercase()
}

#[test]
fn new_registry_is_empty() {
    let registry: CallbackRegistry<fn(&str) -> String> = CallbackRegistry::new(7);
    assert_eq!(registry.len(), 0);
    assert!(registry.has_room());
    assert!(registry.resolve(CallbackHandle { scope: 7, id: 0 }).is_err());
}

#[test]
fn register_then_resolve_finds_the_callable() {
    let mut registry: CallbackRegistry<fn(&str) -> String> = CallbackRegistry::new(1);
    let first = registry.register(upper);
    let second = registry.register(lower);
    assert_eq!(first, CallbackHandle { scope: 1, id: 0 });
    assert_eq!(second, CallbackHandle { scope: 1, id: 1 });
    assert_eq!(registry.len(), 2);
    assert_eq!((registry.resolve(first).unwrap())("cafe"), "CAFE");
    assert_eq!((registry.resolve(second).unwrap())("CAFE"), "cafe");
}

#[test]
fn released_handle_no_longer_resolves() {
    let mut registry: CallbackRegistry<fn(&str) -> String> = CallbackRegistry::new(1);
    let handle = registry.register(upper);
    registry.release(handle);
    assert_eq!(registry.len(), 0);
    assert_eq!(registry.resolve(handle).err(), Some(BridgeError::UnknownCallback));
}

#[test]
fn released_number_is_not_handed_out_again() {
    let mut registry: CallbackRegistry<fn(&str) -> String> = CallbackRegistry::new(1);
    let first = registry.register(upper);
    registry.release(first);
    let second = registry.register(lower);
    assert_ne!(first, second);
    assert_eq!(second.id, 1);
    assert!(registry.resolve(first).is_err());
}

#[test]
fn releasing_an_unknown_handle_changes_nothing() {
    let mut registry: CallbackRegistry<fn(&str) -> String> = CallbackRegistry::new(1);
    let handle = registry.register(upper);
    registry.release(CallbackHandle { scope: 1, id: 9 });
    registry.release(CallbackHandle { scope: 2, id: handle.id });
    assert_eq!(registry.len(), 1);
    assert!(registry.resolve(handle).is_ok());
}

#[test]
fn handle_of_another_scope_does_not_resolve() {
    let mut mine: CallbackRegistry<fn(&str) -> String> = CallbackRegistry::new(1);
    let mut other: CallbackRegistry<fn(&str) -> String> = CallbackRegistry::new(2);
    let my_handle = mine.register(upper);
    let other_handle = other.register(lower);
    assert_eq!(my_handle.id, other_handle.id);
    assert_eq!(other.resolve(my_handle).err(), Some(BridgeError::UnknownCallback));
    assert_eq!(mine.resolve(other_handle).err(), Some(BridgeError::UnknownCallback));
    assert_eq!((mine.resolve(my_handle).unwrap())("x"), "X");
}

#[test]
fn dialect_names_are_exact() {
    assert_eq!(Dialect::from_name("postgres"), Ok(Dialect::Postgres));
    assert_eq!(Dialect::from_name("duckdb"), Ok(Dialect::Duckdb));
    assert_eq!(Dialect::from_name("Postgres"), Err(BridgeError::UnsupportedDialect));
    assert_eq!(Dialect::from_name("postgresql"), Err(BridgeError::UnsupportedDialect));
    assert_eq!(Dialect::from_name("DUCKDB"), Err(BridgeError::UnsupportedDialect));
    assert_eq!(Dialect::from_name("sqlite"), Err(BridgeError::UnsupportedDialect));
    assert_eq!(Dialect::from_name(""), Err(BridgeError::UnsupportedDialect));
}

#[test]
fn dialect_name_reads_back() {
    assert_eq!(Dialect::Postgres.name(), "postgres");
    assert_eq!(Dialect::Duckdb.name(), "duckdb");
    assert_eq!(Dialect::from_name(&Dialect::Postgres.name()), Ok(Dialect::Postgres));
    assert_eq!(Dialect::from_name(&Dialect::Duckdb.name()), Ok(Dialect::Duckdb));
}

#[test]
fn only_postgres_takes_a_callable() {
    assert!(Dialect::Postgres.supports_custom_escape());
    assert!(!Dialect::Duckdb.supports_custom_escape());
}

#[test]
fn postgres_with_callable_registers_it() {
    let mut registry: CallbackRegistry<fn(&str) -> String> = CallbackRegistry::new(3);
    let built = build_descriptor(&mut registry, "postgres", Some(upper as fn(&str) -> String));
    let handle = CallbackHandle { scope: 3, id: 0 };
    assert_eq!(built, Ok(DialectDescriptor::Postgres { escape: Some(handle) }));
    assert_eq!(registry.len(), 1);
    assert_eq!((registry.resolve(handle).unwrap())("cafe"), "CAFE");
    let descriptor = built.unwrap();
    assert_eq!(descriptor.dialect(), Dialect::Postgres);
    assert_eq!(descriptor.escape(), Some(handle));
}

#[test]
fn postgres_without_callable_registers_nothing() {
    let mut registry: CallbackRegistry<fn(&str) -> String> = CallbackRegistry::new(3);
    let built = build_descriptor(&mut registry, "postgres", None);
    assert_eq!(built, Ok(DialectDescriptor::Postgres { escape: None }));
    assert_eq!(registry.len(), 0);
}

#[test]
fn duckdb_ignores_a_supplied_callable() {
    let mut registry: CallbackRegistry<fn(&str) -> String> = CallbackRegistry::new(3);
    let built = build_descriptor(&mut registry, "duckdb", Some(upper as fn(&str) -> String));
    assert_eq!(built, Ok(DialectDescriptor::Duckdb));
    assert_eq!(registry.len(), 0);
    let descriptor = built.unwrap();
    assert_eq!(descriptor.dialect(), Dialect::Duckdb);
    assert_eq!(descriptor.escape(), None);
}

#[test]
fn unknown_dialect_is_refused_and_registers_nothing() {
    let mut registry: CallbackRegistry<fn(&str) -> String> = CallbackRegistry::new(3);
    let built = build_descriptor(&mut registry, "mysql", Some(upper as fn(&str) -> String));
    assert_eq!(built, Err(BridgeError::UnsupportedDialect));
    assert_eq!(registry.len(), 0);
    let again = build_descriptor(&mut registry, "postgres", Some(upper as fn(&str) -> String));
    assert_eq!(
        again,
        Ok(DialectDescriptor::Postgres { escape: Some(CallbackHandle { scope: 3, id: 0 }) })
    );
}

#[test]
fn release_descriptor_empties_the_registry_again() {
    let mut registry: CallbackRegistry<fn(&str) -> String> = CallbackRegistry::new(3);
    let kept = registry.register(lower);
    let descriptor =
        build_descriptor(&mut registry, "postgres", Some(upper as fn(&str) -> String)).unwrap();
    assert_eq!(registry.len(), 2);
    release_descriptor(&mut registry, &descriptor);
    assert_eq!(registry.len(), 1);
    assert!(registry.resolve(kept).is_ok());
    assert!(registry.resolve(descriptor.escape().unwrap()).is_err());
    release_descriptor(&mut registry, &DialectDescriptor::Duckdb);
    assert_eq!(registry.len(), 1);
}

#[test]
fn error_messages_are_exact() {
    assert_eq!(
        BridgeError::Parsing("expected ';'".to_string()).message(),
        "Failed to parse query: expected ';'"
    );
    assert_eq!(BridgeError::UnsupportedDialect.message(), "Unsupported SQL dialect");
    assert_eq!(
        BridgeError::Structure(StructuralFault::NoSubrequests).message(),
        "Request has no subrequest"
    );
    assert_eq!(
        BridgeError::Structure(StructuralFault::NotObjectQuery).message(),
        "First subrequest is not an object query"
    );
    assert_eq!(
        BridgeError::Callback("boom".to_string()).message(),
        "Quote callable failed: boom"
    );
    assert_eq!(BridgeError::UnknownCallback.message(), "Quote callable is not registered");
}

#[test]
fn only_parsing_errors_are_distinguished() {
    assert!(BridgeError::Parsing("x".to_string()).is_parsing_error());
    assert!(!BridgeError::UnsupportedDialect.is_parsing_error());
    assert!(!BridgeError::Structure(StructuralFault::NoSubrequests).is_parsing_error());
    assert!(!BridgeError::Callback("x".to_string()).is_parsing_error());
    assert!(!BridgeError::UnknownCallback.is_parsing_error());
}

#[test]
fn session_hands_the_quoted_text_back_unchanged() {
    let mut registry: CallbackRegistry<fn(&str) -> String> = CallbackRegistry::new(1);
    let descriptor =
        build_descriptor(&mut registry, "postgres", Some(upper as fn(&str) -> String)).unwrap();
    let mut session = CompileSession::new(descriptor);
    let handle = descriptor.escape().unwrap();
    let quoted = (registry.resolve(handle).unwrap())("cafe");
    assert_eq!(session.record_escape("cafe", Ok(quoted)), "CAFE");
    assert!(!session.has_failed());
    let sql = vec!["SELECT 'CAFE'".to_string()];
    assert_eq!(session.finish(&mut registry, sql.clone()), Ok(sql));
    assert_eq!(registry.len(), 0);
}

#[test]
fn session_keeps_the_first_failure() {
    let mut registry: CallbackRegistry<fn(&str) -> String> = CallbackRegistry::new(1);
    let descriptor =
        build_descriptor(&mut registry, "postgres", Some(upper as fn(&str) -> String)).unwrap();
    let mut session = CompileSession::new(descriptor);
    assert_eq!(session.record_escape("a", Err(callback_failure("first"))), "a");
    assert!(session.has_failed());
    assert_eq!(session.record_escape("b", Ok("B".to_string())), "B");
    assert_eq!(session.record_escape("c", Err(BridgeError::UnknownCallback)), "c");
    let result = session.finish(&mut registry, "SELECT 1".to_string());
    assert_eq!(result, Err(BridgeError::Callback("first".to_string())));
    assert_eq!(registry.len(), 0);
}

#[test]
fn session_without_callable_finishes_with_the_output() {
    let mut registry: CallbackRegistry<fn(&str) -> String> = CallbackRegistry::new(1);
    let kept = registry.register(lower);
    let descriptor = build_descriptor(&mut registry, "duckdb", None).unwrap();
    let session = CompileSession::new(descriptor);
    assert_eq!(session.finish(&mut registry, 5u32), Ok(5u32));
    assert_eq!(registry.len(), 1);
    assert!(registry.resolve(kept).is_ok());
}
