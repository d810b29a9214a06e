//! Fixed-length framing: bytes are copied verbatim, no markers. A declared
//! length of zero makes every call a no-op; the declared length is
//! authoritative and is not reconciled against the bytes actually written —
//! callers above this layer must supply exactly the declared number of bytes.

use vstd::prelude::*;
use crate::protocol::{PayloadItem, SendError};

verus! {

/// What fixed-length framing appends for one item under declared length `len`.
pub open spec fn spec_fixed_output(len: usize, item: PayloadItem) -> Seq<u8> {
    if len == 0 {
        Seq::<u8>::empty()
    } else {
        match item {
            PayloadItem::Chunk(bytes) => bytes@,
            PayloadItem::Eof => Seq::<u8>::empty(),
        }
    }
}

#[derive(Debug, Clone)]
pub struct LengthEncoder {
    length: usize,
}

impl LengthEncoder {
    /// The declared body length this encoder was constructed with.
    pub closed spec fn spec_length(&self) -> usize {
        self.length
    }

    pub fn new(length: usize) -> (r: Self)
        ensures
            r.spec_length() == length,
    {
        Self { length }
    }

    /// Copies a non-empty chunk verbatim to `dst`; drops empty chunks and
    /// `Eof`; does nothing at all when the declared length is zero.
    pub fn encode(&mut self, item: PayloadItem, dst: &mut Vec<u8>) -> (r: Result<(), SendError>)
        ensures
            r.is_ok(),
            *final(self) == *old(self),
            final(dst)@ == old(dst)@ + spec_fixed_output(old(self).spec_length(), item),
    {
        if self.length == 0 {
            proof {
                assert(old(dst)@ + spec_fixed_output(old(self).spec_length(), item) =~= old(
                    dst,
                )@);
            }
            return Ok(());
        }

        match item {
            PayloadItem::Chunk(mut bytes) => {
                if bytes.len() == 0 {
                    proof {
                        assert(old(dst)@ + bytes@ =~= old(dst)@);
                    }
                    return Ok(());
                }
                dst.append(&mut bytes);
                Ok(())
            }
            PayloadItem::Eof => {
                proof {
                    assert(old(dst)@ + Seq::<u8>::empty() =~= old(dst)@);
                }
                Ok(())
            }
        }
    }
}

} // verus!
