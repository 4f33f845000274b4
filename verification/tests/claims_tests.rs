//! The permission evaluator: the single `Write`-implies-`Read` rule and
//! nothing else.

use auth_gate::access::AccessLevel;
use auth_gate::access::Claims;

fn claims(perms: Option<&[&str]>) -> Claims {
    Claims { permissions: perms.map(|p| p.iter().map(|s| s.to_string()).collect()) }
}

#[test]
fn read_permission_grants_read() {
    assert!(claims(Some(&["Read"])).validate_permissions("Read".to_string()));
}

#[test]
fn read_permission_does_not_grant_write() {
    assert!(!claims(Some(&["Read"])).validate_permissions("Write".to_string()));
}

#[test]
fn write_permission_grants_write() {
    assert!(claims(Some(&["Write"])).validate_permissions("Write".to_string()));
}

#[test]
fn write_permission_grants_read() {
    assert!(claims(Some(&["Write"])).validate_permissions("Read".to_string()));
}

#[test]
fn absent_permission_set_grants_nothing() {
    assert!(!claims(None).validate_permissions("Read".to_string()));
    assert!(!claims(None).validate_permissions("Write".to_string()));
}

#[test]
fn empty_permission_set_grants_nothing() {
    assert!(!claims(Some(&[])).validate_permissions("Read".to_string()));
    assert!(!claims(Some(&[])).validate_permissions("Write".to_string()));
}

#[test]
fn unrelated_permissions_grant_nothing() {
    let c = claims(Some(&["Admin", "Delete"]));
    assert!(!c.validate_permissions("Read".to_string()));
    assert!(!c.validate_permissions("Write".to_string()));
}

#[test]
fn permission_match_is_case_sensitive() {
    assert!(!claims(Some(&["write"])).validate_permissions("Write".to_string()));
}

#[test]
fn duplicate_permissions_are_harmless() {
    let c = claims(Some(&["Read", "Read", "Write"]));
    assert!(c.validate_permissions("Write".to_string()));
    assert!(c.validate_permissions("Read".to_string()));
}

#[test]
fn access_level_string_forms() {
    assert_eq!(AccessLevel::Write.as_string(), "Write");
    assert_eq!(AccessLevel::Read.as_string(), "Read");
}
