use media_proxy::message::{
    cp_add, cp_data, cp_delete, cp_register, event_code, event_from_code, flow_key, EventKind,
};
use media_proxy::registry::RegistryCommand;

#[test]
fn flow_key_joins_addresses_with_one_space() {
    assert_eq!(flow_key("10.0.0.1:554", "10.0.0.2:9000"), "10.0.0.1:554 10.0.0.2:9000");
}

#[test]
fn distinct_pairs_give_distinct_keys() {
    // Bare concatenation would conflate these two pairs; the separator keeps
    // them apart.
    let a = flow_key("10.0.0.1:5541", "0.0.0.2:9000");
    let b = flow_key("10.0.0.1:554", "10.0.0.2:9000");
    assert_ne!(a, b);
}

#[test]
fn register_message_has_empty_fields() {
    let m = cp_register();
    assert_eq!(m.event, EventKind::Register);
    assert_eq!(m.local, "");
    assert_eq!(m.remote, "");
    assert_eq!(m.data, "");
}

#[test]
fn data_message_carries_the_command_text() {
    let m = cp_data("l".to_string(), "r".to_string(), "OPTIONS * RTSP/1.0\r\n\r\n".to_string());
    assert_eq!(m.event, EventKind::Data);
    assert_eq!(m.local, "l");
    assert_eq!(m.remote, "r");
    assert_eq!(m.data, "OPTIONS * RTSP/1.0\r\n\r\n");
}

#[test]
fn add_builds_the_message_and_the_insert() {
    let (m, cmd) = cp_add(42, "10.0.0.1:554".to_string(), "10.0.0.2:9000".to_string());
    assert_eq!(m.event, EventKind::Add);
    assert_eq!(m.local, "10.0.0.1:554");
    assert_eq!(m.remote, "10.0.0.2:9000");
    assert_eq!(m.data, "");
    assert_eq!(
        cmd,
        RegistryCommand::Insert { key: "10.0.0.1:554 10.0.0.2:9000".to_string(), chan: 42 }
    );
}

#[test]
fn delete_builds_the_message_and_the_remove() {
    let (m, cmd) = cp_delete("10.0.0.1:554".to_string(), "10.0.0.2:9000".to_string());
    assert_eq!(m.event, EventKind::Delete);
    assert_eq!(m.local, "10.0.0.1:554");
    assert_eq!(m.remote, "10.0.0.2:9000");
    assert_eq!(m.data, "");
    assert_eq!(cmd, RegistryCommand::Remove { key: "10.0.0.1:554 10.0.0.2:9000".to_string() });
}

#[test]
fn event_codes_round_trip() {
    let kinds = [
        EventKind::Register,
        EventKind::Add,
        EventKind::Delete,
        EventKind::Data,
        EventKind::Config,
        EventKind::Request,
    ];
    for k in kinds {
        assert_eq!(event_from_code(event_code(k)), Some(k));
    }
}

#[test]
fn unknown_event_codes_are_rejected() {
    assert_eq!(event_from_code(6), None);
    assert_eq!(event_from_code(-1), None);
    assert_eq!(event_from_code(i32::MAX), None);
}
