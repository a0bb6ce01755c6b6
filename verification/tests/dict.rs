use rocket_sentry_logger::dict::{Payload, Tags};
use serde_json::Value;

fn in_order(mut keys: Vec<String>) -> Vec<String> {
    keys.sort();
    keys
}

#[test]
fn empty_payload_has_no_keys() {
    let payload = Payload::new();
    assert!(payload.keys().is_empty());
    assert_eq!(payload.get("anything"), None);
    assert_eq!(payload.get(""), None);
}

#[test]
fn payload_keeps_one_value_per_key() {
    let mut payload = Payload::new();
    payload.insert("b".to_string(), Value::from(1));
    payload.insert("a".to_string(), Value::from(2));
    payload.insert("b".to_string(), Value::from(3));
    assert_eq!(in_order(payload.keys()), vec!["a".to_string(), "b".to_string()]);
    assert_eq!(payload.get("b"), Some(&Value::from(3)));
    assert_eq!(payload.get("a"), Some(&Value::from(2)));
    assert_eq!(payload.get("c"), None);
}

#[test]
fn payload_keys_are_told_apart_exactly() {
    let mut payload = Payload::new();
    payload.insert("key".to_string(), Value::from(1));
    payload.insert("Key".to_string(), Value::from(2));
    payload.insert("key ".to_string(), Value::from(3));
    payload.insert("".to_string(), Value::from(4));
    assert_eq!(payload.keys().len(), 4);
    assert_eq!(payload.get("key"), Some(&Value::from(1)));
    assert_eq!(payload.get("Key"), Some(&Value::from(2)));
    assert_eq!(payload.get("key "), Some(&Value::from(3)));
    assert_eq!(payload.get(""), Some(&Value::from(4)));
}

#[test]
fn cloned_payload_is_independent() {
    let mut payload = Payload::new();
    let nested: Value = serde_json::from_str("{\"list\":[1,{\"deep\":true}]}").unwrap();
    payload.insert("nested".to_string(), nested.clone());
    let copy = payload.clone();
    payload.insert("nested".to_string(), Value::Null);
    payload.insert("more".to_string(), Value::Null);
    assert_eq!(copy.get("nested"), Some(&nested));
    assert_eq!(in_order(copy.keys()), vec!["nested".to_string()]);
    assert_eq!(payload.get("nested"), Some(&Value::Null));
}

#[test]
fn tags_keep_one_value_per_key() {
    let mut tags = Tags::new();
    assert!(tags.keys().is_empty());
    tags.insert("env".to_string(), "staging".to_string());
    tags.insert("env".to_string(), "production".to_string());
    tags.insert("zone".to_string(), "b".to_string());
    assert_eq!(tags.get("env"), Some(&"production".to_string()));
    assert_eq!(tags.get("zone"), Some(&"b".to_string()));
    assert_eq!(tags.get("none"), None);
    assert_eq!(in_order(tags.keys()), vec!["env".to_string(), "zone".to_string()]);
}

#[test]
fn cloned_tags_are_independent() {
    let mut tags = Tags::new();
    tags.insert("a".to_string(), "1".to_string());
    let copy = tags.clone();
    tags.insert("a".to_string(), "2".to_string());
    assert_eq!(copy.get("a"), Some(&"1".to_string()));
    assert_eq!(tags.get("a"), Some(&"2".to_string()));
}
