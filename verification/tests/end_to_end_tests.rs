use media_proxy::frame::{client_frame_action, FrameAction};
use media_proxy::message::{cp_add, event_code, EventKind};
use media_proxy::registry::{Registry, RegistryOutcome};
use media_proxy::session::{dispatch_inbound, DispatchAction};

// A client sends one command; it must reach the control-plane boundary as a
// data event with the connection's address pair and the exact text.  A data
// event addressed back to the same pair must come out verbatim as the bytes
// written to the client socket.
#[test]
fn command_round_trips_through_the_proxy() {
    let local = "192.168.1.10:554";
    let remote = "192.168.1.20:50000";
    let request = "OPTIONS rtsp://x RTSP/1.0\r\n\r\n";

    // Inbound: the read buffer is classified and forwarded.
    let a = client_frame_action(request.as_bytes(), request.len(), local, remote);
    let message = match a {
        FrameAction::SendCommand { message } => message,
        other => panic!("expected a command message, got {:?}", other),
    };
    assert_eq!(message.event, EventKind::Data);
    assert_eq!(message.local, local);
    assert_eq!(message.remote, remote);
    assert_eq!(message.data, request);

    // The connection registered itself when it started.
    let mut registry = Registry::new();
    let (add_message, insert) = cp_add(11, local.to_string(), remote.to_string());
    assert_eq!(add_message.event, EventKind::Add);
    assert_eq!(registry.apply(insert), RegistryOutcome::Inserted);

    // Outbound: a control-plane data event for the same pair is delivered to
    // this connection's channel, the payload verbatim.
    let response = "RTSP/1.0 200 OK\r\nCSeq: 1\r\n\r\n";
    let action = dispatch_inbound(
        event_code(EventKind::Data),
        local.to_string(),
        remote.to_string(),
        response.to_string(),
    );
    let command = match action {
        DispatchAction::Registry { command } => command,
        other => panic!("expected a registry command, got {:?}", other),
    };
    match registry.apply(command) {
        RegistryOutcome::Deliver { chan, payload } => {
            assert_eq!(chan, 11);
            assert_eq!(payload, response.as_bytes());
        }
        other => panic!("expected a delivery, got {:?}", other),
    }
}
