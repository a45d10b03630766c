//! The control-plane session: dispatch of inbound events and the state
//! machine over the one bidirectional stream.
//!
//! The session dials the control plane, announces itself with a register
//! event, and then streams: outbound messages drain from the process-wide
//! queue in order, and each inbound message is dispatched by event kind.  A
//! register event arriving from the control plane, or an unknown event code,
//! is a protocol violation and fatal to the session; per-flow anomalies are
//! not.  The task that runs the session performs the actions decided here
//! and feeds the next event back in.

use vstd::prelude::*;
use vstd::string::StrSliceExecFns;
use vstd::utf8::encode_utf8;

use crate::message::EventKind;
use crate::message::event_from_code;
use crate::message::flow_key;
use crate::message::flow_key_spec;
use crate::message::spec_event_code;
use crate::message::spec_event_from_code;
use crate::registry::CommandV;
use crate::registry::OutcomeV;
use crate::registry::RegistryCommand;
use crate::registry::registry_step;

verus! {

/// Why a session ended.
#[derive(Clone, Copy, Debug, PartialEq, Eq, Structural)]
pub enum SessionError {
    /// The control plane could not be reached, or the register handshake
    /// could not be queued: the session never became usable.
    NotConnected,
    /// A protocol violation: an event kind that the control plane must not
    /// send, an unknown event code, or an event out of place in the session's
    /// current state.
    InvalidEvent,
    /// The stream failed or the control plane closed it.
    StreamBroken,
}

/// What the session is to do with one inbound control-plane message.
#[derive(Debug, PartialEq, Eq)]
pub enum DispatchAction {
    /// Drive the flow registry: delete events remove the named flow, data
    /// events deliver their payload to it.
    Registry { command: RegistryCommand },
    /// An add or request event: establish an outbound flow toward this
    /// remote and register it.
    EstablishFlow { remote: String },
    /// A config event: this address names the data-plane endpoint to connect
    /// to; a parse failure is reported, not fatal.
    ConfigureDataPlane { address: String },
    /// A protocol violation: the session must end with this error.
    Fatal { error: SessionError },
}

/// The mathematical value of a [`DispatchAction`].
pub enum ActionV {
    Registry(CommandV),
    EstablishFlow(Seq<char>),
    ConfigureDataPlane(Seq<char>),
    Fatal(SessionError),
}

impl View for DispatchAction {
    type V = ActionV;

    open spec fn view(&self) -> ActionV {
        match self {
            DispatchAction::Registry { command } => ActionV::Registry(command@),
            DispatchAction::EstablishFlow { remote } => ActionV::EstablishFlow(remote@),
            DispatchAction::ConfigureDataPlane { address } => ActionV::ConfigureDataPlane(
                address@,
            ),
            DispatchAction::Fatal { error } => ActionV::Fatal(*error),
        }
    }
}

/// What each inbound message means, by event kind: register must not arrive
/// from the control plane, and an unknown code is invalid; delete and data
/// drive the registry under the canonical flow key; add and request
/// establish an outbound flow toward their remote; config hands the
/// data-plane address on.
pub open spec fn spec_dispatch(
    code: i32,
    local: Seq<char>,
    remote: Seq<char>,
    data: Seq<char>,
) -> ActionV {
    match spec_event_from_code(code) {
        Option::None => ActionV::Fatal(SessionError::InvalidEvent),
        Option::Some(e) => match e {
            EventKind::Register => ActionV::Fatal(SessionError::InvalidEvent),
            EventKind::Add => ActionV::EstablishFlow(remote),
            EventKind::Delete => ActionV::Registry(
                CommandV::Remove(flow_key_spec(local, remote)),
            ),
            EventKind::Data => ActionV::Registry(
                CommandV::Send(flow_key_spec(local, remote), encode_utf8(data)),
            ),
            EventKind::Config => ActionV::ConfigureDataPlane(remote),
            EventKind::Request => ActionV::EstablishFlow(remote),
        },
    }
}

/// Dispatch one inbound control-plane message by its event kind.
pub fn dispatch_inbound(code: i32, local: String, remote: String, data: String) -> (a:
    DispatchAction)
    ensures
        a@ == spec_dispatch(code, local@, remote@, data@),
{
    match event_from_code(code) {
        None => DispatchAction::Fatal { error: SessionError::InvalidEvent },
        Some(e) => match e {
            EventKind::Register => DispatchAction::Fatal { error: SessionError::InvalidEvent },
            EventKind::Add => DispatchAction::EstablishFlow { remote },
            EventKind::Delete => DispatchAction::Registry {
                command: RegistryCommand::Remove {
                    key: flow_key(local.as_str(), remote.as_str()),
                },
            },
            EventKind::Data => DispatchAction::Registry {
                command: RegistryCommand::Send {
                    key: flow_key(local.as_str(), remote.as_str()),
                    payload: data.as_str().as_bytes_vec(),
                },
            },
            EventKind::Config => DispatchAction::ConfigureDataPlane { address: remote },
            EventKind::Request => DispatchAction::EstablishFlow { remote },
        },
    }
}

/// The session's state over the one stream.
#[derive(Clone, Copy, Debug, PartialEq, Eq, Structural)]
pub enum SessionState {
    /// Dialing the control-plane endpoint.
    Connecting,
    /// Connected; the register handshake must complete before any flow
    /// traffic.
    Registering,
    /// The steady state: pumping the outbound queue and dispatching inbound
    /// messages.
    Streaming,
    /// Terminal: the session failed and no flow traffic can proceed.
    Failed,
}

/// What happened at the session's current suspension point.
#[derive(Debug, PartialEq, Eq)]
pub enum SessionEvent {
    /// The dial succeeded.
    ConnectOk,
    /// The dial failed.
    ConnectFailed,
    /// The register handshake was placed on the stream.
    RegisterQueued,
    /// The register handshake could not be placed on the stream.
    RegisterFailed,
    /// One message arrived from the control plane.
    Inbound { code: i32, local: String, remote: String, data: String },
    /// The stream failed or the control plane closed it.
    StreamEnded,
}

/// The mathematical value of a [`SessionEvent`].
pub enum SessionEventV {
    ConnectOk,
    ConnectFailed,
    RegisterQueued,
    RegisterFailed,
    Inbound(i32, Seq<char>, Seq<char>, Seq<char>),
    StreamEnded,
}

impl View for SessionEvent {
    type V = SessionEventV;

    open spec fn view(&self) -> SessionEventV {
        match self {
            SessionEvent::ConnectOk => SessionEventV::ConnectOk,
            SessionEvent::ConnectFailed => SessionEventV::ConnectFailed,
            SessionEvent::RegisterQueued => SessionEventV::RegisterQueued,
            SessionEvent::RegisterFailed => SessionEventV::RegisterFailed,
            SessionEvent::Inbound { code, local, remote, data } => SessionEventV::Inbound(
                *code,
                local@,
                remote@,
                data@,
            ),
            SessionEvent::StreamEnded => SessionEventV::StreamEnded,
        }
    }
}

/// What the session's task is to do after one step.
#[derive(Debug, PartialEq, Eq)]
pub enum SessionAction {
    /// Send the register handshake on the stream.
    SendRegister,
    /// Perform this dispatch action.
    Dispatch { action: DispatchAction },
    /// End the session with this error, propagated to the process.
    Fail { error: SessionError },
    /// Nothing to perform; wait for the next event.
    Proceed,
}

/// The mathematical value of a [`SessionAction`].
pub enum SessionActionV {
    SendRegister,
    Dispatch(ActionV),
    Fail(SessionError),
    Proceed,
}

impl View for SessionAction {
    type V = SessionActionV;

    open spec fn view(&self) -> SessionActionV {
        match self {
            SessionAction::SendRegister => SessionActionV::SendRegister,
            SessionAction::Dispatch { action } => SessionActionV::Dispatch(action@),
            SessionAction::Fail { error } => SessionActionV::Fail(*error),
            SessionAction::Proceed => SessionActionV::Proceed,
        }
    }
}

/// The session state machine: what one event does in each state.  An event
/// out of place in the current state is a protocol violation; the failed
/// state is terminal.
pub open spec fn spec_session_step(s: SessionState, e: SessionEventV) -> (SessionState,
    SessionActionV) {
    match s {
        SessionState::Connecting => match e {
            SessionEventV::ConnectOk => (SessionState::Registering, SessionActionV::SendRegister),
            SessionEventV::ConnectFailed => (
                SessionState::Failed,
                SessionActionV::Fail(SessionError::NotConnected),
            ),
            _ => (SessionState::Failed, SessionActionV::Fail(SessionError::InvalidEvent)),
        },
        SessionState::Registering => match e {
            SessionEventV::RegisterQueued => (SessionState::Streaming, SessionActionV::Proceed),
            SessionEventV::RegisterFailed => (
                SessionState::Failed,
                SessionActionV::Fail(SessionError::NotConnected),
            ),
            _ => (SessionState::Failed, SessionActionV::Fail(SessionError::InvalidEvent)),
        },
        SessionState::Streaming => match e {
            SessionEventV::Inbound(code, local, remote, data) => {
                let a = spec_dispatch(code, local, remote, data);
                match a {
                    ActionV::Fatal(err) => (SessionState::Failed, SessionActionV::Fail(err)),
                    _ => (SessionState::Streaming, SessionActionV::Dispatch(a)),
                }
            },
            SessionEventV::StreamEnded => (
                SessionState::Failed,
                SessionActionV::Fail(SessionError::StreamBroken),
            ),
            _ => (SessionState::Failed, SessionActionV::Fail(SessionError::InvalidEvent)),
        },
        SessionState::Failed => (SessionState::Failed, SessionActionV::Proceed),
    }
}

/// Advance the session by one event.
pub fn session_step(s: SessionState, e: SessionEvent) -> (r: (SessionState, SessionAction))
    ensures
        (r.0, r.1@) == spec_session_step(s, e@),
{
    match s {
        SessionState::Connecting => match e {
            SessionEvent::ConnectOk => (SessionState::Registering, SessionAction::SendRegister),
            SessionEvent::ConnectFailed => (
                SessionState::Failed,
                SessionAction::Fail { error: SessionError::NotConnected },
            ),
            _ => (SessionState::Failed, SessionAction::Fail { error: SessionError::InvalidEvent }),
        },
        SessionState::Registering => match e {
            SessionEvent::RegisterQueued => (SessionState::Streaming, SessionAction::Proceed),
            SessionEvent::RegisterFailed => (
                SessionState::Failed,
                SessionAction::Fail { error: SessionError::NotConnected },
            ),
            _ => (SessionState::Failed, SessionAction::Fail { error: SessionError::InvalidEvent }),
        },
        SessionState::Streaming => match e {
            SessionEvent::Inbound { code, local, remote, data } => {
                let a = dispatch_inbound(code, local, remote, data);
                match a {
                    DispatchAction::Fatal { error } => (
                        SessionState::Failed,
                        SessionAction::Fail { error },
                    ),
                    _ => (SessionState::Streaming, SessionAction::Dispatch { action: a }),
                }
            },
            SessionEvent::StreamEnded => (
                SessionState::Failed,
                SessionAction::Fail { error: SessionError::StreamBroken },
            ),
            _ => (SessionState::Failed, SessionAction::Fail { error: SessionError::InvalidEvent }),
        },
        SessionState::Failed => (SessionState::Failed, SessionAction::Proceed),
    }
}

/// Law: flow traffic is dispatched only in the streaming state.
pub proof fn lemma_dispatch_only_when_streaming(s: SessionState, e: SessionEventV)
    ensures
        spec_session_step(s, e).1 is Dispatch ==> s is Streaming,
{
}

/// Law: the streaming state is entered only by completing the register
/// handshake, or kept from one streaming step to the next: registration
/// precedes all flow traffic.
pub proof fn lemma_register_precedes_streaming(s: SessionState, e: SessionEventV)
    ensures
        spec_session_step(s, e).0 is Streaming ==> (s is Streaming || (s is Registering
            && e is RegisterQueued)),
{
}

/// Law: a delete event for an address pair followed by a data event for the
/// same pair delivers nothing: the data event finds the flow key absent and
/// only reports it.
pub proof fn lemma_delete_then_data(
    m: Map<Seq<char>, u64>,
    local: Seq<char>,
    remote: Seq<char>,
    data: Seq<char>,
)
    ensures
        ({
            let key = flow_key_spec(local, remote);
            let del = spec_dispatch(
                spec_event_code(EventKind::Delete),
                local,
                remote,
                Seq::empty(),
            );
            let dat = spec_dispatch(spec_event_code(EventKind::Data), local, remote, data);
            &&& del == ActionV::Registry(CommandV::Remove(key))
            &&& dat == ActionV::Registry(CommandV::Send(key, encode_utf8(data)))
            &&& ({
                let (m1, o1) = registry_step(m, CommandV::Remove(key));
                let (m2, o2) = registry_step(m1, CommandV::Send(key, encode_utf8(data)));
                &&& !m1.contains_key(key)
                &&& o2 == OutcomeV::NotPresent
                &&& m2 == m1
            })
        }),
{
}

} // verus!
