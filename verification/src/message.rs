//! Control-plane messages and flow keys.
//!
//! A control-plane message is a discriminated event with a local address, a
//! remote address and a textual payload.  On the wire the event kind travels
//! as an integer code; decoding an unknown code is rejected explicitly.  A
//! flow key is the one canonical string derived from a connection's address
//! pair; every registry operation and every control-plane event uses the same
//! construction.

use vstd::prelude::*;
use vstd::string::StringExecFns;

use crate::registry::CommandV;
use crate::registry::RegistryCommand;

verus! {

broadcast use vstd::string::group_string_axioms;

/// The event kinds carried by control-plane messages.
#[derive(Clone, Copy, Debug, PartialEq, Eq, Structural)]
pub enum EventKind {
    Register,
    Add,
    Delete,
    Data,
    Config,
    Request,
}

/// The integer code an event kind travels as on the wire.
pub open spec fn spec_event_code(e: EventKind) -> i32 {
    match e {
        EventKind::Register => 0,
        EventKind::Add => 1,
        EventKind::Delete => 2,
        EventKind::Data => 3,
        EventKind::Config => 4,
        EventKind::Request => 5,
    }
}

/// The event kind denoted by a wire code, if any.
pub open spec fn spec_event_from_code(code: i32) -> Option<EventKind> {
    if code == 0 {
        Some(EventKind::Register)
    } else if code == 1 {
        Some(EventKind::Add)
    } else if code == 2 {
        Some(EventKind::Delete)
    } else if code == 3 {
        Some(EventKind::Data)
    } else if code == 4 {
        Some(EventKind::Config)
    } else {
        if code == 5 {
            Some(EventKind::Request)
        } else {
            None
        }
    }
}

/// Encode an event kind as its wire code.
pub fn event_code(e: EventKind) -> (code: i32)
    ensures
        code == spec_event_code(e),
{
    match e {
        EventKind::Register => 0,
        EventKind::Add => 1,
        EventKind::Delete => 2,
        EventKind::Data => 3,
        EventKind::Config => 4,
        EventKind::Request => 5,
    }
}

/// Decode a wire code into an event kind; any code outside the known set is
/// rejected.
pub fn event_from_code(code: i32) -> (r: Option<EventKind>)
    ensures
        r == spec_event_from_code(code),
{
    if code == 0 {
        Some(EventKind::Register)
    } else if code == 1 {
        Some(EventKind::Add)
    } else if code == 2 {
        Some(EventKind::Delete)
    } else if code == 3 {
        Some(EventKind::Data)
    } else if code == 4 {
        Some(EventKind::Config)
    } else if code == 5 {
        Some(EventKind::Request)
    } else {
        None
    }
}

/// A control-plane message: one event concerning one address pair.
#[derive(Debug, PartialEq, Eq)]
pub struct Message {
    pub event: EventKind,
    pub local: String,
    pub remote: String,
    pub data: String,
}

/// The mathematical value of a [`Message`].
pub struct MessageV {
    pub event: EventKind,
    pub local: Seq<char>,
    pub remote: Seq<char>,
    pub data: Seq<char>,
}

impl View for Message {
    type V = MessageV;

    open spec fn view(&self) -> MessageV {
        MessageV {
            event: self.event,
            local: self.local@,
            remote: self.remote@,
            data: self.data@,
        }
    }
}

/// The canonical flow key for an address pair: the local address, one space,
/// the remote address.
pub open spec fn flow_key_spec(local: Seq<char>, remote: Seq<char>) -> Seq<char> {
    local + seq![' '] + remote
}

/// Law: the canonical flow key determines the address pair.  Endpoint
/// addresses never hold a space, so two pairs collide only when they are the
/// same pair; flow state cannot be fragmented or conflated by the key
/// construction itself.
pub proof fn lemma_flow_key_injective(
    l1: Seq<char>,
    r1: Seq<char>,
    l2: Seq<char>,
    r2: Seq<char>,
)
    requires
        !l1.contains(' '),
        !l2.contains(' '),
        flow_key_spec(l1, r1) == flow_key_spec(l2, r2),
    ensures
        l1 == l2,
        r1 == r2,
{
    let k1 = flow_key_spec(l1, r1);
    let k2 = flow_key_spec(l2, r2);
    assert(k1.len() == l1.len() + 1 + r1.len());
    assert(k2.len() == l2.len() + 1 + r2.len());
    if l1.len() < l2.len() {
        assert(k1[l1.len() as int] == ' ');
        assert(k2[l1.len() as int] == l2[l1.len() as int]);
        assert(l2.contains(' '));
    }
    if l2.len() < l1.len() {
        assert(k2[l2.len() as int] == ' ');
        assert(k1[l2.len() as int] == l1[l2.len() as int]);
        assert(l1.contains(' '));
    }
    assert(l1.len() == l2.len());
    assert forall|i: int| 0 <= i < l1.len() implies l1[i] == l2[i] by {
        assert(k1[i] == l1[i]);
        assert(k2[i] == l2[i]);
    }
    assert(l1 =~= l2);
    assert forall|j: int| 0 <= j < r1.len() implies r1[j] == r2[j] by {
        assert(k1[l1.len() + 1 + j] == r1[j]);
        assert(k2[l2.len() + 1 + j] == r2[j]);
    }
    assert(r1 =~= r2);
}

/// Build the canonical flow key for an address pair.
pub fn flow_key(local: &str, remote: &str) -> (key: String)
    ensures
        key@ == flow_key_spec(local@, remote@),
{
    let mut key: String = local.to_owned();
    key.append(" ");
    key.append(remote);
    proof {
        reveal_strlit(" ");
        assert(key@ =~= flow_key_spec(local@, remote@));
    }
    key
}

/// The handshake message announcing this proxy to the control plane: a
/// register event with empty endpoint fields.
pub fn cp_register() -> (m: Message)
    ensures
        m@ == (MessageV {
            event: EventKind::Register,
            local: Seq::<char>::empty(),
            remote: Seq::<char>::empty(),
            data: Seq::<char>::empty(),
        }),
{
    Message {
        event: EventKind::Register,
        local: String::new(),
        remote: String::new(),
        data: String::new(),
    }
}

/// What registering a flow takes: the add message announcing the address
/// pair to the control plane, and the registry command that maps the pair's
/// flow key to the flow's delivery channel.
pub fn cp_add(chan: u64, local: String, remote: String) -> (r: (Message, RegistryCommand))
    ensures
        r.0@ == (MessageV {
            event: EventKind::Add,
            local: local@,
            remote: remote@,
            data: Seq::<char>::empty(),
        }),
        r.1@ == CommandV::Insert(flow_key_spec(local@, remote@), chan),
{
    let key = flow_key(local.as_str(), remote.as_str());
    let message = Message {
        event: EventKind::Add,
        local,
        remote,
        data: String::new(),
    };
    (message, RegistryCommand::Insert { key, chan })
}

/// What deregistering a flow takes: the delete message announcing the address
/// pair to the control plane, and the registry command that removes the
/// pair's flow key.
pub fn cp_delete(local: String, remote: String) -> (r: (Message, RegistryCommand))
    ensures
        r.0@ == (MessageV {
            event: EventKind::Delete,
            local: local@,
            remote: remote@,
            data: Seq::<char>::empty(),
        }),
        r.1@ == CommandV::Remove(flow_key_spec(local@, remote@)),
{
    let key = flow_key(local.as_str(), remote.as_str());
    let message = Message {
        event: EventKind::Delete,
        local,
        remote,
        data: String::new(),
    };
    (message, RegistryCommand::Remove { key })
}

/// The message forwarding one command frame from a client to the control
/// plane as a data event for the connection's address pair.
pub fn cp_data(local: String, remote: String, data: String) -> (m: Message)
    ensures
        m@ == (MessageV { event: EventKind::Data, local: local@, remote: remote@, data: data@ }),
{
    Message { event: EventKind::Data, local, remote, data }
}

} // verus!
