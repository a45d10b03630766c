use media_proxy::message::flow_key;
use media_proxy::registry::{Registry, RegistryCommand, RegistryOutcome};

#[test]
fn insert_then_send_delivers_on_that_channel() {
    let mut r = Registry::new();
    let key = flow_key("10.0.0.1:554", "10.0.0.2:9000");
    let o = r.apply(RegistryCommand::Insert { key: key.clone(), chan: 7 });
    assert_eq!(o, RegistryOutcome::Inserted);
    let o = r.apply(RegistryCommand::Send { key: key.clone(), payload: b"hello".to_vec() });
    assert_eq!(o, RegistryOutcome::Deliver { chan: 7, payload: b"hello".to_vec() });
}

#[test]
fn sends_deliver_in_submission_order() {
    let mut r = Registry::new();
    let key = flow_key("10.0.0.1:554", "10.0.0.2:9000");
    r.apply(RegistryCommand::Insert { key: key.clone(), chan: 3 });
    let payloads: Vec<&[u8]> = vec![b"first", b"second", b"third"];
    let mut delivered = Vec::new();
    for p in &payloads {
        match r.apply(RegistryCommand::Send { key: key.clone(), payload: p.to_vec() }) {
            RegistryOutcome::Deliver { chan, payload } => {
                assert_eq!(chan, 3);
                delivered.push(payload);
            }
            other => panic!("expected a delivery, got {:?}", other),
        }
    }
    let expected: Vec<Vec<u8>> = payloads.iter().map(|p| p.to_vec()).collect();
    assert_eq!(delivered, expected);
}

#[test]
fn send_to_unregistered_key_reports_not_present() {
    let mut r = Registry::new();
    let key = flow_key("10.0.0.1:554", "10.0.0.2:9000");
    let o = r.apply(RegistryCommand::Remove { key: key.clone() });
    assert_eq!(o, RegistryOutcome::NotPresent);
    let o = r.apply(RegistryCommand::Send { key, payload: b"lost".to_vec() });
    assert_eq!(o, RegistryOutcome::NotPresent);
}

#[test]
fn collision_keeps_first_registrant() {
    let mut r = Registry::new();
    let key = flow_key("10.0.0.1:554", "10.0.0.2:9000");
    let o = r.apply(RegistryCommand::Insert { key: key.clone(), chan: 1 });
    assert_eq!(o, RegistryOutcome::Inserted);
    let o = r.apply(RegistryCommand::Insert { key: key.clone(), chan: 2 });
    assert_eq!(o, RegistryOutcome::Collision);
    let o = r.apply(RegistryCommand::Send { key, payload: b"x".to_vec() });
    assert_eq!(o, RegistryOutcome::Deliver { chan: 1, payload: b"x".to_vec() });
}

#[test]
fn removal_returns_the_registered_channel() {
    let mut r = Registry::new();
    let key = flow_key("10.0.0.1:554", "10.0.0.2:9000");
    r.apply(RegistryCommand::Insert { key: key.clone(), chan: 9 });
    let o = r.apply(RegistryCommand::Remove { key: key.clone() });
    assert_eq!(o, RegistryOutcome::Removed { chan: 9 });
    let o = r.apply(RegistryCommand::Send { key, payload: b"late".to_vec() });
    assert_eq!(o, RegistryOutcome::NotPresent);
}

#[test]
fn failed_key_does_not_disturb_others() {
    let mut r = Registry::new();
    let key_a = flow_key("10.0.0.1:554", "10.0.0.2:9000");
    let key_b = flow_key("10.0.0.1:554", "10.0.0.3:9000");
    r.apply(RegistryCommand::Insert { key: key_a.clone(), chan: 1 });
    r.apply(RegistryCommand::Insert { key: key_b.clone(), chan: 2 });
    r.apply(RegistryCommand::Remove { key: key_a });
    let o = r.apply(RegistryCommand::Send { key: key_b, payload: b"still here".to_vec() });
    assert_eq!(o, RegistryOutcome::Deliver { chan: 2, payload: b"still here".to_vec() });
}

#[test]
fn command_labels_match_their_variants() {
    let insert = RegistryCommand::Insert { key: "k".to_string(), chan: 0 };
    let remove = RegistryCommand::Remove { key: "k".to_string() };
    let send = RegistryCommand::Send { key: "k".to_string(), payload: vec![] };
    assert_eq!(insert.label(), "Insert");
    assert_eq!(remove.label(), "Remove");
    assert_eq!(send.label(), "Send");
}
