//! Data model shared by all encoder stages: body payload items, the
//! header/payload message envelope, framing size declarations, and the
//! error taxonomy of the outbound pipeline.

use vstd::prelude::*;

verus! {

/// One unit of body data, or the end-of-body marker.
pub enum PayloadItem {
    Chunk(Vec<u8>),
    Eof,
}

impl PayloadItem {
    pub open spec fn spec_is_eof(&self) -> bool {
        matches!(self, PayloadItem::Eof)
    }

    pub fn is_eof(&self) -> (r: bool)
        ensures
            r == self.spec_is_eof(),
    {
        match self {
            PayloadItem::Chunk(_) => false,
            PayloadItem::Eof => true,
        }
    }
}

/// The unit exchanged with `ResponseEncoder`: within one logical response,
/// exactly one `Header` precedes any number of `Payload` messages, the last
/// of which is `PayloadItem::Eof`.
pub enum Message<H> {
    Header(H),
    Payload(PayloadItem),
}

/// How the body of a response is framed on the wire; carried alongside the
/// header. `Length` is used only when the full body size is known before
/// encoding begins.
#[derive(Clone, Copy, Debug, PartialEq, Eq, Structural)]
pub enum PayloadSize {
    Length(usize),
    Chunked,
    Empty,
}

/// Declares `std::io::Error` so that it can stand in signatures and fields;
/// values of it are carried through opaquely.
#[verifier::external_type_specification]
#[verifier::external_body]
pub struct ExIoError(std::io::Error);

/// Failures of the outbound pipeline.
///
/// - `ProtocolViolation`: a header or payload message arrived out of order.
/// - `Io`: a compression algorithm or sink failed; surfaced unchanged.
/// - `InvalidBody`: the upstream body yielded a non-data frame where only
///   data is expected, or the upstream itself errored.
#[derive(Debug)]
pub enum SendError {
    ProtocolViolation,
    Io(std::io::Error),
    InvalidBody(String),
}

impl SendError {
    pub open spec fn spec_is_protocol_violation(&self) -> bool {
        matches!(self, SendError::ProtocolViolation)
    }

    pub fn is_protocol_violation(&self) -> (r: bool)
        ensures
            r == self.spec_is_protocol_violation(),
    {
        match self {
            SendError::ProtocolViolation => true,
            _ => false,
        }
    }

    pub open spec fn spec_is_io(&self) -> bool {
        matches!(self, SendError::Io(_))
    }

    pub fn is_io(&self) -> (r: bool)
        ensures
            r == self.spec_is_io(),
    {
        match self {
            SendError::Io(_) => true,
            _ => false,
        }
    }

    pub open spec fn spec_is_invalid_body(&self) -> bool {
        matches!(self, SendError::InvalidBody(_))
    }

    pub fn is_invalid_body(&self) -> (r: bool)
        ensures
            r == self.spec_is_invalid_body(),
    {
        match self {
            SendError::InvalidBody(_) => true,
            _ => false,
        }
    }
}

} // verus!
