//! Guest attributes: setting, overwriting and reading back.

use code_signing::guest::{AttributeKey, AttributeValue, GuestAttributes};

#[test]
fn new_attributes_are_empty() {
    let attrs = GuestAttributes::new();
    assert_eq!(attrs.len(), 0);
    assert_eq!(attrs.get(&AttributeKey::Pid), None);
    assert_eq!(GuestAttributes::default().len(), 0);
}

#[test]
fn pid_is_stored_as_an_integer() {
    let mut attrs = GuestAttributes::new();
    attrs.set_pid(4242);
    assert_eq!(attrs.len(), 1);
    assert_eq!(attrs.get(&AttributeKey::Pid), Some(&AttributeValue::Integer(4242)));
    assert_eq!(attrs.get(&AttributeKey::AuditToken), None);
}

#[test]
fn audit_token_is_stored_as_bytes() {
    let token: Vec<u8> = (0u8..32).collect();
    let mut attrs = GuestAttributes::new();
    attrs.set_audit_token(token.clone());
    assert_eq!(attrs.get(&AttributeKey::AuditToken), Some(&AttributeValue::Bytes(token)));
}

#[test]
fn setting_again_overwrites() {
    let mut attrs = GuestAttributes::new();
    attrs.set_pid(1);
    attrs.set_audit_token(vec![1, 2, 3]);
    attrs.set_pid(2);
    assert_eq!(attrs.len(), 2);
    assert_eq!(attrs.get(&AttributeKey::Pid), Some(&AttributeValue::Integer(2)));
    assert_eq!(attrs.get(&AttributeKey::AuditToken), Some(&AttributeValue::Bytes(vec![1, 2, 3])));
    attrs.set_audit_token(vec![]);
    assert_eq!(attrs.len(), 2);
    assert_eq!(attrs.get(&AttributeKey::AuditToken), Some(&AttributeValue::Bytes(vec![])));
}

#[test]
fn other_attributes_go_by_their_name() {
    let mut attrs = GuestAttributes::new();
    attrs.set_other("architecture".to_string(), AttributeValue::Integer(7));
    attrs.set_other("canonical".to_string(), AttributeValue::Object(15));
    attrs.set_other("hash".to_string(), AttributeValue::Bytes(vec![0xde, 0xad]));
    assert_eq!(attrs.len(), 3);
    assert_eq!(
        attrs.get(&AttributeKey::Other("architecture".to_string())),
        Some(&AttributeValue::Integer(7))
    );
    assert_eq!(
        attrs.get(&AttributeKey::Other("canonical".to_string())),
        Some(&AttributeValue::Object(15))
    );
    assert_eq!(attrs.get(&AttributeKey::Other("subarchitecture".to_string())), None);
    attrs.set_other("architecture".to_string(), AttributeValue::Integer(8));
    assert_eq!(attrs.len(), 3);
    assert_eq!(
        attrs.get(&AttributeKey::Other("architecture".to_string())),
        Some(&AttributeValue::Integer(8))
    );
}

#[test]
fn a_named_attribute_is_not_the_fixed_one() {
    let mut attrs = GuestAttributes::new();
    attrs.set_other("pid".to_string(), AttributeValue::Integer(5));
    assert_eq!(attrs.get(&AttributeKey::Pid), None);
    attrs.set_pid(6);
    assert_eq!(attrs.len(), 2);
    assert_eq!(
        attrs.get(&AttributeKey::Other("pid".to_string())),
        Some(&AttributeValue::Integer(5))
    );
}

#[test]
fn entries_keep_the_order_of_first_setting() {
    let mut attrs = GuestAttributes::new();
    attrs.set_pid(1);
    attrs.set_other("hash".to_string(), AttributeValue::Bytes(vec![9]));
    attrs.set_audit_token(vec![4]);
    attrs.set_pid(3);
    assert_eq!(attrs.len(), 3);
    assert_eq!(attrs.entry(0).key, AttributeKey::Pid);
    assert_eq!(attrs.entry(0).value, AttributeValue::Integer(3));
    assert_eq!(attrs.entry(1).key, AttributeKey::Other("hash".to_string()));
    assert_eq!(attrs.entry(2).key, AttributeKey::AuditToken);
    assert_eq!(attrs.entry(2).value, AttributeValue::Bytes(vec![4]));
}

#[test]
fn keys_compare_by_what_they_name() {
    assert!(AttributeKey::Pid.same(&AttributeKey::Pid));
    assert!(AttributeKey::AuditToken.same(&AttributeKey::AuditToken));
    assert!(!AttributeKey::Pid.same(&AttributeKey::AuditToken));
    assert!(AttributeKey::Other("a".to_string()).same(&AttributeKey::Other("a".to_string())));
    assert!(!AttributeKey::Other("a".to_string()).same(&AttributeKey::Other("b".to_string())));
    assert!(!AttributeKey::Other("pid".to_string()).same(&AttributeKey::Pid));
}

#[test]
fn general_set_takes_any_key() {
    let mut attrs = GuestAttributes::new();
    attrs.set(AttributeKey::Pid, AttributeValue::Integer(10));
    attrs.set(AttributeKey::Other("port".to_string()), AttributeValue::Object(3));
    assert_eq!(attrs.get(&AttributeKey::Pid), Some(&AttributeValue::Integer(10)));
    assert_eq!(attrs.len(), 2);
}
