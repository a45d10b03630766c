//! Classification of the bytes read from a client connection.
//!
//! Each successful read yields one frame.  A first byte equal to the
//! interleaved marker (the ASCII `$`) makes it a binary data frame whose
//! payload is the rest of the buffer, destined for the data plane; any other
//! first byte makes it a textual command frame whose payload is the whole
//! buffer, decoded as UTF-8 and forwarded to the control plane as a data
//! event for the connection's address pair.  A command frame that is not
//! valid UTF-8 ends the connection with an invalid-data outcome.

use vstd::prelude::*;
use vstd::slice::slice_subrange;
use vstd::slice::slice_to_vec;
use vstd::utf8::decode_utf8;
use vstd::utf8::valid_utf8;

use crate::message::EventKind;
use crate::message::Message;
use crate::message::MessageV;
use crate::message::cp_data;

verus! {

/// The first byte of an interleaved binary data frame: the ASCII `$`.
pub const INTERLEAVED_MARKER: u8 = 0x24;

/// One frame read from a client connection.
#[derive(Debug, PartialEq, Eq)]
pub enum Frame {
    /// A binary data frame: the marker byte stripped, the rest is data-plane
    /// payload.
    Interleaved { payload: Vec<u8> },
    /// A textual command frame: the whole buffer, unmodified.
    Command { payload: Vec<u8> },
}

/// Classify the first `n` bytes of a read buffer as one frame.
pub fn classify_frame(buf: &[u8], n: usize) -> (f: Frame)
    requires
        0 < n <= buf@.len(),
    ensures
        buf@[0] == INTERLEAVED_MARKER ==> (f matches Frame::Interleaved { payload }
            && payload@ == buf@.subrange(1, n as int)),
        buf@[0] != INTERLEAVED_MARKER ==> (f matches Frame::Command { payload }
            && payload@ == buf@.subrange(0, n as int)),
{
    if buf[0] == INTERLEAVED_MARKER {
        Frame::Interleaved { payload: slice_to_vec(slice_subrange(buf, 1, n)) }
    } else {
        Frame::Command { payload: slice_to_vec(slice_subrange(buf, 0, n)) }
    }
}

/// What the connection handler is to do with one frame.
#[derive(Debug, PartialEq, Eq)]
pub enum FrameAction {
    /// Forward the payload of an interleaved frame toward the data plane.
    ForwardData { payload: Vec<u8> },
    /// Forward a command frame to the control plane as this message.
    SendCommand { message: Message },
    /// The command frame was not valid UTF-8: end the connection with an
    /// invalid-data outcome.
    InvalidData,
}

/// Relies on `String::from_utf8`: it returns the string whose UTF-8 encoding
/// is the given bytes exactly when they are valid UTF-8, and rejects them
/// otherwise.
#[verifier::external_body]
fn utf8_to_string(bytes: Vec<u8>) -> (r: Option<String>)
    ensures
        r is Some <==> valid_utf8(bytes@),
        r matches Some(s) ==> s@ == decode_utf8(bytes@),
{
    match String::from_utf8(bytes) {
        Ok(s) => Some(s),
        Err(_) => None,
    }
}

/// Decide what one frame read from the client means: data-plane payload,
/// a control-plane data event for this connection's address pair, or an
/// invalid command frame.
pub fn client_frame_action(buf: &[u8], n: usize, local: &str, remote: &str) -> (a: FrameAction)
    requires
        0 < n <= buf@.len(),
    ensures
        buf@[0] == INTERLEAVED_MARKER ==> (a matches FrameAction::ForwardData { payload }
            && payload@ == buf@.subrange(1, n as int)),
        buf@[0] != INTERLEAVED_MARKER && valid_utf8(buf@.subrange(0, n as int)) ==> (a matches
            FrameAction::SendCommand { message } && message@ == (MessageV {
            event: EventKind::Data,
            local: local@,
            remote: remote@,
            data: decode_utf8(buf@.subrange(0, n as int)),
        })),
        buf@[0] != INTERLEAVED_MARKER && !valid_utf8(buf@.subrange(0, n as int)) ==> a
            is InvalidData,
{
    match classify_frame(buf, n) {
        Frame::Interleaved { payload } => FrameAction::ForwardData { payload },
        Frame::Command { payload } => {
            match utf8_to_string(payload) {
                Some(text) => {
                    FrameAction::SendCommand {
                        message: cp_data(local.to_owned(), remote.to_owned(), text),
                    }
                },
                None => FrameAction::InvalidData,
            }
        },
    }
}

} // verus!
