use std::cell::RefCell;

use overpass_parser_ruby::dialect::{build_descriptor, DialectDescriptor};
use overpass_parser_ruby::error::BridgeError;
use overpass_parser_ruby::registry::{CallbackHandle, CallbackRegistry};
use overpass_parser_ruby::session::CompileSession;

#[test]
fn uppercasing_callable_is_called_once_per_literal_in_order() {
    let seen: RefCell<Vec<String>> = RefCell::new(Vec::new());
    let upper = |literal: &str| -> Result<String, String> {
        seen.borrow_mut().push(literal.to_string());
        Ok(literal.to_uppercase())
    };
    let mut registry = CallbackRegistry::new(1);
    let descriptor = build_descriptor(&mut registry, "postgres", Some(upper)).unwrap();
    let mut session = CompileSession::new(descriptor);
    assert_eq!(session.quote_literal(&registry, "cafe"), "CAFE");
    assert_eq!(session.quote_literal(&registry, "bar"), "BAR");
    assert_eq!(session.quote_literal(&registry, "cafe"), "CAFE");
    assert_eq!(*seen.borrow(), vec!["cafe".to_string(), "bar".to_string(), "cafe".to_string()]);
    assert!(!session.has_failed());
    assert_eq!(session.finish(&mut registry, 3u8), Ok(3u8));
    assert_eq!(registry.len(), 0);
}

#[test]
fn failing_callable_becomes_a_callback_error() {
    let picky = |literal: &str| -> Result<String, String> {
        if literal == "bad" {
            Err("refused".to_string())
        } else {
            Ok(format!("'{}'", literal))
        }
    };
    let mut registry = CallbackRegistry::new(1);
    let descriptor = build_descriptor(&mut registry, "postgres", Some(picky)).unwrap();
    let mut session = CompileSession::new(descriptor);
    assert_eq!(session.quote_literal(&registry, "good"), "'good'");
    assert_eq!(session.quote_literal(&registry, "bad"), "bad");
    assert_eq!(session.quote_literal(&registry, "fine"), "'fine'");
    assert!(session.has_failed());
    let result = session.finish(&mut registry, vec!["SELECT".to_string()]);
    assert_eq!(result, Err(BridgeError::Callback("refused".to_string())));
    assert_eq!(result.err().unwrap().message(), "Quote callable failed: refused");
    assert_eq!(registry.len(), 0);
}

fn quiet(literal: &str) -> Result<String, String> {
    Ok(literal.to_lowercase())
}

fn loud(literal: &str) -> Result<String, String> {
    Ok(literal.to_uppercase())
}

#[test]
fn handle_missing_from_the_registry_is_a_failure() {
    let mut registry: CallbackRegistry<fn(&str) -> Result<String, String>> =
        CallbackRegistry::new(1);
    let descriptor = build_descriptor(&mut registry, "postgres", Some(quiet as _)).unwrap();
    registry.release(descriptor.escape().unwrap());
    let mut session = CompileSession::new(descriptor);
    assert_eq!(session.quote_literal(&registry, "Cafe"), "Cafe");
    assert_eq!(session.finish(&mut registry, ()), Err(BridgeError::UnknownCallback));
}

#[test]
fn callable_of_another_scope_is_never_called() {
    let mut mine: CallbackRegistry<fn(&str) -> Result<String, String>> = CallbackRegistry::new(1);
    let mut other: CallbackRegistry<fn(&str) -> Result<String, String>> = CallbackRegistry::new(2);
    let my_descriptor = build_descriptor(&mut mine, "postgres", Some(loud as _)).unwrap();
    let other_descriptor = build_descriptor(&mut other, "postgres", Some(quiet as _)).unwrap();
    assert_eq!(
        my_descriptor,
        DialectDescriptor::Postgres { escape: Some(CallbackHandle { scope: 1, id: 0 }) }
    );
    assert_eq!(
        other_descriptor,
        DialectDescriptor::Postgres { escape: Some(CallbackHandle { scope: 2, id: 0 }) }
    );
    let mut my_session = CompileSession::new(my_descriptor);
    let mut other_session = CompileSession::new(other_descriptor);
    assert_eq!(my_session.quote_literal(&mine, "Cafe"), "CAFE");
    assert_eq!(other_session.quote_literal(&other, "Cafe"), "cafe");
    let mut strayed = CompileSession::new(my_descriptor);
    assert_eq!(strayed.quote_literal(&other, "Cafe"), "Cafe");
    assert_eq!(strayed.finish(&mut other, ()), Err(BridgeError::UnknownCallback));
    assert_eq!(other.len(), 1);
}

#[test]
fn session_without_callable_hands_the_literal_back() {
    let mut registry: CallbackRegistry<fn(&str) -> Result<String, String>> =
        CallbackRegistry::new(1);
    let descriptor = build_descriptor(&mut registry, "duckdb", Some(loud as _)).unwrap();
    let mut session = CompileSession::new(descriptor);
    assert_eq!(session.quote_literal(&registry, "cafe"), "cafe");
    assert!(!session.has_failed());
    let plain = build_descriptor(&mut registry, "postgres", None).unwrap();
    let mut session = CompileSession::new(plain);
    assert_eq!(session.quote_literal(&registry, "cafe"), "cafe");
    assert!(!session.has_failed());
}
