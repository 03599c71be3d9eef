use sharekit::listeners::{init, ListenerRegistry};
use sharekit::ShareError;

#[test]
fn broadcast_without_listeners_succeeds_silently() {
    let reg: ListenerRegistry<&str> = init();
    let b = reg.trigger("sharedContent", "{\"type\":\"text\",\"text\":\"hi\"}").unwrap();
    assert!(b.value.is_none());
    assert!(b.recipients.is_empty());
    let b = reg.trigger("sharedContent", "not json").unwrap();
    assert!(b.recipients.is_empty());
}

#[test]
fn two_listeners_receive_and_removal_keeps_the_other() {
    let mut reg: ListenerRegistry<&str> = init();
    let a = reg.register_listener("sharedContent".to_string(), "first").unwrap();
    let b = reg.register_listener("sharedContent".to_string(), "second").unwrap();
    assert_ne!(a, b);
    let sent = reg.trigger("sharedContent", "{\"type\":\"text\",\"text\":\"hi\"}").unwrap();
    assert_eq!(sent.recipients, vec![a, b]);
    let value = sent.value.unwrap();
    assert_eq!(value["type"], "text");
    assert_eq!(value["text"], "hi");
    assert_eq!(reg.channel("sharedContent", a), Some(&"first"));
    assert_eq!(reg.channel("sharedContent", b), Some(&"second"));

    reg.remove_listener("sharedContent".to_string(), a);
    let sent = reg.trigger("sharedContent", "{\"type\":\"text\",\"text\":\"again\"}").unwrap();
    assert_eq!(sent.recipients, vec![b]);
    assert_eq!(reg.channel("sharedContent", a), None);
    assert_eq!(reg.channel("sharedContent", b), Some(&"second"));
}

#[test]
fn broadcast_reaches_only_its_event() {
    let mut reg: ListenerRegistry<u8> = init();
    let a = reg.register_listener("sharedContent".to_string(), 1).unwrap();
    let other = reg.register_listener("other".to_string(), 2).unwrap();
    assert_eq!(reg.recipients("sharedContent"), vec![a]);
    assert_eq!(reg.recipients("other"), vec![other]);
    assert!(reg.recipients("none").is_empty());
    assert_eq!(reg.channel("other", a), None);
}

#[test]
fn malformed_payload_is_refused_when_someone_listens() {
    let mut reg: ListenerRegistry<u8> = init();
    reg.register_listener("sharedContent".to_string(), 1).unwrap();
    assert_eq!(reg.trigger("sharedContent", "{\"type\":").unwrap_err(), ShareError::InvalidData);
}

#[test]
fn removing_an_absent_listener_changes_nothing() {
    let mut reg: ListenerRegistry<u8> = init();
    let a = reg.register_listener("sharedContent".to_string(), 1).unwrap();
    reg.remove_listener("sharedContent".to_string(), a + 100);
    reg.remove_listener("other".to_string(), a);
    assert_eq!(reg.recipients("sharedContent"), vec![a]);
}

#[test]
fn ids_stay_fresh_after_removal() {
    let mut reg: ListenerRegistry<u8> = init();
    let a = reg.register_listener("e".to_string(), 1).unwrap();
    reg.remove_listener("e".to_string(), a);
    let b = reg.register_listener("e".to_string(), 2).unwrap();
    assert_ne!(a, b);
    assert_eq!(reg.recipients("e"), vec![b]);
}
