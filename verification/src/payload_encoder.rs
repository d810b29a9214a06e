//! One encoder per response body, owning exactly one framing discipline:
//! fixed-length, chunked, or no body. Constructed once from the chosen
//! `PayloadSize`, it consumes `PayloadItem`s and is discarded after `Eof`.

use vstd::prelude::*;
use crate::chunked_encoder::{spec_chunked_output, ChunkedEncoder};
use crate::length_encoder::{spec_fixed_output, LengthEncoder};
use crate::protocol::{PayloadItem, PayloadSize, SendError};

verus! {

/// What a payload encoder created from `size` appends for one item.
pub open spec fn spec_payload_output(size: PayloadSize, item: PayloadItem) -> Seq<u8> {
    match size {
        PayloadSize::Length(n) => spec_fixed_output(n, item),
        PayloadSize::Chunked => spec_chunked_output(item),
        PayloadSize::Empty => Seq::<u8>::empty(),
    }
}

/// Zero-length suppression: a zero-length chunk produces zero output bytes
/// under every framing mode.
pub proof fn lemma_zero_length_chunk_suppressed(size: PayloadSize, bytes: Vec<u8>)
    requires
        bytes@.len() == 0,
    ensures
        spec_payload_output(size, PayloadItem::Chunk(bytes)) == Seq::<u8>::empty(),
{
    assert(bytes@ =~= Seq::<u8>::empty());
}

/// Fixed-length passthrough: under a positive declared length, a chunk is
/// copied verbatim with no framing markers.
pub proof fn lemma_fixed_length_passthrough(n: usize, bytes: Vec<u8>)
    requires
        n > 0,
    ensures
        spec_payload_output(PayloadSize::Length(n), PayloadItem::Chunk(bytes)) == bytes@,
{
}

/// Fixed-length zero suppression: under a declared length of zero, encoding
/// any chunk — empty or not — produces zero output bytes.
pub proof fn lemma_fixed_zero_length_suppressed(bytes: Vec<u8>)
    ensures
        spec_payload_output(PayloadSize::Length(0), PayloadItem::Chunk(bytes)) == Seq::<
            u8,
        >::empty(),
{
}

#[derive(Debug, Clone)]
enum Kind {
    Length(LengthEncoder),
    Chunked(ChunkedEncoder),
    NoBody,
}

/// Encodes the payload of one response under the framing discipline chosen
/// from its `PayloadSize`.
#[derive(Debug, Clone)]
pub struct PayloadEncoder {
    kind: Kind,
}

impl PayloadEncoder {
    /// The framing discipline this encoder applies, as the `PayloadSize` it
    /// was selected from.
    pub closed spec fn view(&self) -> PayloadSize {
        match self.kind {
            Kind::Length(encoder) => PayloadSize::Length(encoder.spec_length()),
            Kind::Chunked(_) => PayloadSize::Chunked,
            Kind::NoBody => PayloadSize::Empty,
        }
    }

    /// Creates a `PayloadEncoder` for a response without a body.
    pub fn empty() -> (r: Self)
        ensures
            r@ == PayloadSize::Empty,
    {
        Self { kind: Kind::NoBody }
    }

    /// Creates a chunked `PayloadEncoder`.
    pub fn chunked() -> (r: Self)
        ensures
            r@ == PayloadSize::Chunked,
    {
        Self { kind: Kind::Chunked(ChunkedEncoder::new()) }
    }

    /// Creates a fixed-length `PayloadEncoder`.
    pub fn fix_length(size: usize) -> (r: Self)
        ensures
            r@ == PayloadSize::Length(size),
    {
        Self { kind: Kind::Length(LengthEncoder::new(size)) }
    }

    pub fn is_chunked(&self) -> (r: bool)
        ensures
            r == (self@ is Chunked),
    {
        match &self.kind {
            Kind::Length(_) => false,
            Kind::Chunked(_) => true,
            Kind::NoBody => false,
        }
    }

    pub fn is_empty(&self) -> (r: bool)
        ensures
            r == (self@ is Empty),
    {
        match &self.kind {
            Kind::Length(_) => false,
            Kind::Chunked(_) => false,
            Kind::NoBody => true,
        }
    }

    pub fn is_fix_length(&self) -> (r: bool)
        ensures
            r == (self@ is Length),
    {
        match &self.kind {
            Kind::Length(_) => true,
            Kind::Chunked(_) => false,
            Kind::NoBody => false,
        }
    }

    /// Delegates one payload item to the active framing discipline.
    pub fn encode(&mut self, item: PayloadItem, dst: &mut Vec<u8>) -> (r: Result<(), SendError>)
        ensures
            r.is_ok(),
            final(self)@ == old(self)@,
            final(dst)@ == old(dst)@ + spec_payload_output(old(self)@, item),
    {
        match &mut self.kind {
            Kind::Length(encoder) => encoder.encode(item, dst),
            Kind::Chunked(encoder) => encoder.encode(item, dst),
            Kind::NoBody => {
                proof {
                    assert(old(dst)@ + Seq::<u8>::empty() =~= old(dst)@);
                }
                Ok(())
            }
        }
    }
}

} // verus!
