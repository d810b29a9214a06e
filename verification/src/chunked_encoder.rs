//! Chunked transfer coding: each non-empty chunk is framed as
//! `<hex length>\r\n<raw bytes>\r\n`, and `Eof` emits the terminating
//! `0\r\n\r\n` sequence. Empty chunks are dropped.

use vstd::prelude::*;
use crate::hex::{spec_hex, to_hex};
use crate::protocol::{PayloadItem, SendError};

verus! {

pub const CR: u8 = 13;

pub const LF: u8 = 10;

/// The two-byte line terminator of the chunked coding.
pub open spec fn spec_crlf() -> Seq<u8> {
    seq![CR, LF]
}

/// The frame for one non-empty chunk: hex length, CRLF, the bytes, CRLF.
pub open spec fn spec_chunk_frame(data: Seq<u8>) -> Seq<u8> {
    spec_hex(data.len()) + spec_crlf() + data + spec_crlf()
}

/// The terminating zero-length chunk: `0\r\n\r\n`.
pub open spec fn spec_last_chunk() -> Seq<u8> {
    seq![48u8, CR, LF, CR, LF]
}

/// What chunked framing appends for one payload item.
pub open spec fn spec_chunked_output(item: PayloadItem) -> Seq<u8> {
    match item {
        PayloadItem::Chunk(bytes) => if bytes@.len() == 0 {
            Seq::<u8>::empty()
        } else {
            spec_chunk_frame(bytes@)
        },
        PayloadItem::Eof => spec_last_chunk(),
    }
}

#[derive(Debug, Clone)]
pub struct ChunkedEncoder {
}

impl ChunkedEncoder {
    pub fn new() -> (r: Self) {
        Self {  }
    }

    /// Frames a non-empty chunk as `<hex length>\r\n<bytes>\r\n`, drops empty
    /// chunks, and emits `0\r\n\r\n` for `Eof`.
    pub fn encode(&mut self, item: PayloadItem, dst: &mut Vec<u8>) -> (r: Result<(), SendError>)
        ensures
            r.is_ok(),
            *final(self) == *old(self),
            final(dst)@ == old(dst)@ + spec_chunked_output(item),
    {
        match item {
            PayloadItem::Chunk(mut bytes) => {
                if bytes.len() == 0 {
                    proof {
                        assert(old(dst)@ + spec_chunked_output(item) =~= old(dst)@);
                    }
                    return Ok(());
                }
                let ghost data = bytes@;
                let mut size = to_hex(bytes.len());
                dst.append(&mut size);
                dst.push(CR);
                dst.push(LF);
                dst.append(&mut bytes);
                dst.push(CR);
                dst.push(LF);
                proof {
                    assert(dst@ =~= old(dst)@ + spec_chunk_frame(data));
                }
                Ok(())
            }
            PayloadItem::Eof => {
                dst.push(48);
                dst.push(CR);
                dst.push(LF);
                dst.push(CR);
                dst.push(LF);
                proof {
                    assert(dst@ =~= old(dst)@ + spec_last_chunk());
                }
                Ok(())
            }
        }
    }
}

} // verus!
