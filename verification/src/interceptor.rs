//! The per-response compression policy. It runs once per outbound response,
//! after the response is built and before framing, and decides whether the
//! body is replaced by a compressed stream and under which algorithm. The
//! caller applies the decision: it wraps the body in a `CompressedBodyStream`,
//! removes `Content-Length`, and appends `Content-Encoding` with the chosen
//! algorithm's token.

use vstd::prelude::*;
use crate::compress::{spec_select, CompressionKind};

verus! {

/// Bodies whose declared upper size bound is at or below this many bytes are
/// never compressed: the algorithm's overhead outweighs the benefit.
pub const MIN_COMPRESS_SIZE: u64 = 1024;

pub const STATUS_SWITCHING_PROTOCOLS: u16 = 101;

pub const STATUS_NO_CONTENT: u16 = 204;

/// The outcome of the policy: leave the response alone, or substitute its
/// body with a stream compressed by the given algorithm.
#[derive(Clone, Copy, Debug, PartialEq, Eq, Structural)]
pub enum EncodingDecision {
    Skip,
    Compress(CompressionKind),
}

/// The policy, as a function of what the decision reads from the exchange:
/// the response status, whether the response already declares a
/// `Content-Encoding`, the request's raw `Accept-Encoding` value (`None`
/// when absent or not representable as text), whether the body is known
/// empty, and the body's declared upper size bound if known.
pub open spec fn spec_plan(
    status: u16,
    already_encoded: bool,
    accept_encoding: Option<Seq<u8>>,
    body_is_empty: bool,
    body_upper_bound: Option<u64>,
) -> EncodingDecision {
    if status == STATUS_NO_CONTENT || status == STATUS_SWITCHING_PROTOCOLS {
        EncodingDecision::Skip
    } else if already_encoded {
        EncodingDecision::Skip
    } else {
        match accept_encoding {
            None => EncodingDecision::Skip,
            Some(accept) => match spec_select(accept) {
                None => EncodingDecision::Skip,
                Some(kind) => {
                    if body_is_empty {
                        EncodingDecision::Skip
                    } else {
                        match body_upper_bound {
                            Some(upper) => if upper <= MIN_COMPRESS_SIZE {
                                EncodingDecision::Skip
                            } else {
                                EncodingDecision::Compress(kind)
                            },
                            None => EncodingDecision::Compress(kind),
                        }
                    }
                }
            },
        }
    }
}

/// Decides, per response, whether compression applies and which algorithm
/// performs it.
pub struct EncodeInterceptor;

impl EncodeInterceptor {
    /// The policy's executable form; see `spec_plan` for the argument
    /// reading.
    pub fn plan(
        status: u16,
        already_encoded: bool,
        accept_encoding: Option<&Vec<u8>>,
        body_is_empty: bool,
        body_upper_bound: Option<u64>,
    ) -> (decision: EncodingDecision)
        ensures
            decision == spec_plan(
                status,
                already_encoded,
                match accept_encoding {
                    Some(accept) => Some(accept@),
                    None => None,
                },
                body_is_empty,
                body_upper_bound,
            ),
    {
        if status == STATUS_NO_CONTENT || status == STATUS_SWITCHING_PROTOCOLS {
            return EncodingDecision::Skip;
        }
        if already_encoded {
            return EncodingDecision::Skip;
        }
        let accept = match accept_encoding {
            Some(accept) => accept,
            None => {
                return EncodingDecision::Skip;
            }
        };
        let kind = match CompressionKind::select(accept.as_slice()) {
            Some(kind) => kind,
            None => {
                return EncodingDecision::Skip;
            }
        };
        if body_is_empty {
            return EncodingDecision::Skip;
        }
        match body_upper_bound {
            Some(upper) if upper <= MIN_COMPRESS_SIZE => EncodingDecision::Skip,
            _ => EncodingDecision::Compress(kind),
        }
    }
}

/// Compression idempotence: a response that already carries a
/// `Content-Encoding` is never modified, whatever the request accepts.
pub proof fn lemma_already_encoded_never_compressed(
    status: u16,
    accept_encoding: Option<Seq<u8>>,
    body_is_empty: bool,
    body_upper_bound: Option<u64>,
)
    ensures
        spec_plan(status, true, accept_encoding, body_is_empty, body_upper_bound)
            == EncodingDecision::Skip,
{
}

/// Threshold skip: a body whose declared upper size bound does not exceed
/// `MIN_COMPRESS_SIZE` bytes is never compressed.
pub proof fn lemma_small_body_never_compressed(
    status: u16,
    already_encoded: bool,
    accept_encoding: Option<Seq<u8>>,
    body_is_empty: bool,
    upper: u64,
)
    requires
        upper <= MIN_COMPRESS_SIZE,
    ensures
        spec_plan(status, already_encoded, accept_encoding, body_is_empty, Some(upper))
            == EncodingDecision::Skip,
{
}

/// A bodyless status is never compressed.
pub proof fn lemma_bodyless_status_never_compressed(
    status: u16,
    already_encoded: bool,
    accept_encoding: Option<Seq<u8>>,
    body_is_empty: bool,
    body_upper_bound: Option<u64>,
)
    requires
        status == STATUS_NO_CONTENT || status == STATUS_SWITCHING_PROTOCOLS,
    ensures
        spec_plan(status, already_encoded, accept_encoding, body_is_empty, body_upper_bound)
            == EncodingDecision::Skip,
{
}

} // verus!
