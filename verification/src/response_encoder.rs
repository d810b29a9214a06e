//! The response-level protocol state machine. It enforces message ordering —
//! one `Header` installs a payload encoder, `Payload` items are delegated to
//! it, and `Eof` retires it — and appends the already-serialized header bytes
//! produced by the header-encoding collaborator. Each `Eof` returns the
//! machine to its initial state, ready for the next response on the same
//! connection.

use vstd::prelude::*;
use crate::payload_encoder::{spec_payload_output, PayloadEncoder};
use crate::protocol::{Message, PayloadItem, PayloadSize, SendError};

verus! {

/// The unit handed to `ResponseEncoder`: serialized header bytes together
/// with the framing declaration, or one payload item.
pub type ResponseMessage = Message<(Vec<u8>, PayloadSize)>;

/// One step of the protocol state machine: from the active framing (if any)
/// and one message to the next framing, whether the message is accepted, and
/// the bytes appended to the wire.
pub open spec fn spec_response_step(state: Option<PayloadSize>, msg: ResponseMessage) -> (
    Option<PayloadSize>,
    bool,
    Seq<u8>,
) {
    match msg {
        Message::Header((head, size)) => {
            if state is Some {
                (state, false, Seq::<u8>::empty())
            } else {
                (Some(size), true, head@)
            }
        }
        Message::Payload(item) => {
            match state {
                None => (None, false, Seq::<u8>::empty()),
                Some(size) => {
                    let next = if item is Eof {
                        None
                    } else {
                        Some(size)
                    };
                    (next, true, spec_payload_output(size, item))
                }
            }
        }
    }
}

/// Encodes a stream of responses: headers through the header collaborator's
/// serialized bytes, payloads through a per-response `PayloadEncoder`.
pub struct ResponseEncoder {
    payload_encoder: Option<PayloadEncoder>,
}

impl ResponseEncoder {
    /// The framing of the response whose payload is currently being encoded,
    /// or `None` between responses.
    pub closed spec fn state(&self) -> Option<PayloadSize> {
        match self.payload_encoder {
            Some(encoder) => Some(encoder@),
            None => None,
        }
    }

    pub fn new() -> (r: Self)
        ensures
            r.state() is None,
    {
        Self { payload_encoder: None }
    }

    /// Runs one step of the state machine. A `Header` while a payload encoder
    /// is active, or a `Payload` while none is, is a protocol violation and
    /// leaves the machine and the output untouched. `Eof` retires the active
    /// encoder, so the machine accepts the next response's `Header`.
    pub fn encode(&mut self, item: ResponseMessage, dst: &mut Vec<u8>) -> (r: Result<
        (),
        SendError,
    >)
        ensures
            final(self).state() == spec_response_step(old(self).state(), item).0,
            r.is_ok() == spec_response_step(old(self).state(), item).1,
            r is Err ==> r == Err::<(), SendError>(SendError::ProtocolViolation),
            final(dst)@ == old(dst)@ + spec_response_step(old(self).state(), item).2,
    {
        match item {
            Message::Header((mut head, payload_size)) => {
                if self.payload_encoder.is_some() {
                    proof {
                        assert(old(dst)@ + Seq::<u8>::empty() =~= old(dst)@);
                    }
                    return Err(SendError::ProtocolViolation);
                }

                let payload_encoder = parse_payload_encoder(payload_size);
                self.payload_encoder = Some(payload_encoder);
                dst.append(&mut head);
                Ok(())
            }
            Message::Payload(payload_item) => {
                let payload_encoder = if let Some(encoder) = &mut self.payload_encoder {
                    encoder
                } else {
                    proof {
                        assert(old(dst)@ + Seq::<u8>::empty() =~= old(dst)@);
                    }
                    return Err(SendError::ProtocolViolation);
                };

                let is_eof = payload_item.is_eof();
                let result = payload_encoder.encode(payload_item, dst);

                if is_eof {
                    self.payload_encoder = None;
                }

                result
            }
        }
    }
}

/// The ordering invariant of the state machine: a payload before any header
/// is refused; a second header while a payload encoder is still active is
/// refused; and once `Eof` has been processed, the next header is accepted.
pub proof fn lemma_message_ordering(
    head: Vec<u8>,
    size: PayloadSize,
    next_head: Vec<u8>,
    next_size: PayloadSize,
    item: PayloadItem,
    active: PayloadSize,
)
    ensures
        !spec_response_step(None, Message::Payload(item)).1,
        !spec_response_step(Some(active), Message::Header((head, size))).1,
        spec_response_step(
            spec_response_step(Some(active), Message::Payload(PayloadItem::Eof)).0,
            Message::Header((next_head, next_size)),
        ).1,
{
}

/// Selects the framing discipline for one response from its declared
/// `PayloadSize`.
pub fn parse_payload_encoder(payload_size: PayloadSize) -> (r: PayloadEncoder)
    ensures
        r@ == payload_size,
{
    match payload_size {
        PayloadSize::Length(size) => PayloadEncoder::fix_length(size),
        PayloadSize::Chunked => PayloadEncoder::chunked(),
        PayloadSize::Empty => PayloadEncoder::empty(),
    }
}

} // verus!
