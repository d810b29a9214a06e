//! A specification-level decoder for the chunked transfer coding, and the
//! round-trip law: framing any sequence of non-empty chunks and terminating
//! it with the zero chunk decodes back to the concatenation of the chunks.

use vstd::prelude::*;
use crate::chunked_encoder::{spec_chunk_frame, spec_last_chunk, CR, LF};
use crate::hex::{
    hex_prefix_len, is_hex_digit, lemma_hex_prefix_len_of_concat, lemma_parse_spec_hex,
    lemma_spec_hex_digits, parse_hex, spec_hex,
};

verus! {

/// Decodes a chunked-transfer body: a run of `<hex length>\r\n<bytes>\r\n`
/// frames terminated by the zero-length chunk `0\r\n\r\n`. Returns the
/// concatenated chunk payloads, or `None` if `s` is not well formed.
pub open spec fn spec_decode_chunked(s: Seq<u8>) -> Option<Seq<u8>>
    decreases s.len(),
{
    let k = hex_prefix_len(s) as int;
    if k == 0 {
        None
    } else {
        let n = parse_hex(s.take(k)) as int;
        if s.len() < k + 2 {
            None
        } else if s[k] != CR || s[k + 1] != LF {
            None
        } else if n == 0 {
            if s.len() == k + 4 && s[k + 2] == CR && s[k + 3] == LF {
                Some(Seq::<u8>::empty())
            } else {
                None
            }
        } else if s.len() < k + 2 + n + 2 {
            None
        } else if s[k + 2 + n] != CR || s[k + 2 + n + 1] != LF {
            None
        } else {
            match spec_decode_chunked(s.subrange(k + 2 + n + 2, s.len() as int)) {
                None => None,
                Some(rest) => Some(s.subrange(k + 2, k + 2 + n) + rest),
            }
        }
    }
}

/// The full wire encoding of a sequence of chunks: one frame per chunk, then
/// the terminating zero chunk.
pub open spec fn spec_encode_chunks(chunks: Seq<Seq<u8>>) -> Seq<u8>
    decreases chunks.len(),
{
    if chunks.len() == 0 {
        spec_last_chunk()
    } else {
        spec_chunk_frame(chunks[0]) + spec_encode_chunks(chunks.drop_first())
    }
}

/// The terminating zero chunk alone decodes to the empty payload.
proof fn lemma_decode_last_chunk()
    ensures
        spec_decode_chunked(spec_last_chunk()) == Some(Seq::<u8>::empty()),
{
    let s = spec_last_chunk();
    assert(s.len() == 5);
    assert(is_hex_digit(s[0]));
    assert(!is_hex_digit(s.drop_first()[0]));
    assert(hex_prefix_len(s.drop_first()) == 0);
    assert(hex_prefix_len(s) == 1);
    let t = s.take(1);
    assert(t =~= seq![48u8]);
    assert(t.drop_last() =~= Seq::<u8>::empty());
    assert(parse_hex(Seq::<u8>::empty()) == 0);
    assert(parse_hex(t) == 0);
    assert(s[1] == CR && s[2] == LF && s[3] == CR && s[4] == LF);
}

/// Prepending one well-formed frame to a decodable tail decodes to the
/// frame's payload followed by the tail's payload.
proof fn lemma_decode_frame_prepend(c: Seq<u8>, rest: Seq<u8>)
    requires
        c.len() > 0,
        spec_decode_chunked(rest) is Some,
    ensures
        spec_decode_chunked(spec_chunk_frame(c) + rest) == Some(
            c + spec_decode_chunked(rest).unwrap(),
        ),
{
    let h = spec_hex(c.len());
    let k = h.len() as int;
    let n = c.len() as int;
    let crlf = seq![CR, LF];
    let tail = crlf + c + crlf + rest;
    let s = spec_chunk_frame(c) + rest;
    assert(s =~= h + tail);

    lemma_spec_hex_digits(c.len());
    assert(!is_hex_digit(tail[0]));
    lemma_hex_prefix_len_of_concat(h, tail);
    assert(hex_prefix_len(s) == k);

    assert(s.take(k) =~= h);
    lemma_parse_spec_hex(c.len());
    assert(parse_hex(s.take(k)) == n);

    assert(s.len() == k + 2 + n + 2 + rest.len());
    assert(s[k] == tail[0]);
    assert(s[k] == CR);
    assert(s[k + 1] == tail[1]);
    assert(s[k + 1] == LF);
    assert(s.subrange(k + 2, k + 2 + n) =~= c);
    assert(s[k + 2 + n] == CR);
    assert(s[k + 2 + n + 1] == LF);
    assert(s.subrange(k + 2 + n + 2, s.len() as int) =~= rest);
}

/// Chunked round-trip: the wire encoding of any sequence of non-empty chunks
/// decodes, under a standard chunked-transfer decoder, to the concatenation
/// of the original chunks, with the terminating zero chunk consumed.
pub proof fn lemma_chunked_round_trip(chunks: Seq<Seq<u8>>)
    requires
        forall|i: int| 0 <= i < chunks.len() ==> (#[trigger] chunks[i]).len() > 0,
    ensures
        spec_decode_chunked(spec_encode_chunks(chunks)) == Some(chunks.flatten()),
    decreases chunks.len(),
{
    if chunks.len() == 0 {
        lemma_decode_last_chunk();
        assert(chunks.flatten() =~= Seq::<u8>::empty());
    } else {
        let rest_chunks = chunks.drop_first();
        lemma_chunked_round_trip(rest_chunks);
        lemma_decode_frame_prepend(chunks[0], spec_encode_chunks(rest_chunks));
        assert(chunks.first() == chunks[0]);
        assert(chunks.flatten() == chunks[0] + rest_chunks.flatten());
    }
}

} // verus!
