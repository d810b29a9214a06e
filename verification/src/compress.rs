//! Streaming content compression behind a uniform `write` /
//! `drain-available-output` / `finish` interface. Four algorithms are
//! supported (gzip, deflate/zlib, zstd, brotli); each compresses into an
//! in-memory buffer that is drained into output frames. Negotiation picks
//! the algorithm from the raw `Accept-Encoding` value by substring
//! containment, with precedence zstd > brotli > gzip > deflate.

use vstd::prelude::*;
use crate::protocol::SendError;

verus! {

/// The closed set of supported compression algorithms.
#[derive(Clone, Copy, Debug, PartialEq, Eq, Structural)]
pub enum CompressionKind {
    Gzip,
    Deflate,
    Zstd,
    Br,
}

/// Whether `t` occurs contiguously anywhere inside `s`.
pub open spec fn contains_token(s: Seq<u8>, t: Seq<u8>) -> bool {
    exists|i: int|
        0 <= i && i + t.len() <= s.len() && #[trigger] s.subrange(i, i + t.len() as int) == t
}

pub open spec fn token_gzip() -> Seq<u8> {
    seq![103u8, 122u8, 105u8, 112u8]
}

pub open spec fn token_deflate() -> Seq<u8> {
    seq![100u8, 101u8, 102u8, 108u8, 97u8, 116u8, 101u8]
}

pub open spec fn token_zstd() -> Seq<u8> {
    seq![122u8, 115u8, 116u8, 100u8]
}

pub open spec fn token_br() -> Seq<u8> {
    seq![98u8, 114u8]
}

/// The algorithm selected from a raw `Accept-Encoding` value: the raw bytes
/// are searched for each algorithm's token, in the preference order
/// zstd > brotli > gzip > deflate; no token means no compression.
pub open spec fn spec_select(accept: Seq<u8>) -> Option<CompressionKind> {
    if contains_token(accept, token_zstd()) {
        Some(CompressionKind::Zstd)
    } else if contains_token(accept, token_br()) {
        Some(CompressionKind::Br)
    } else if contains_token(accept, token_gzip()) {
        Some(CompressionKind::Gzip)
    } else if contains_token(accept, token_deflate()) {
        Some(CompressionKind::Deflate)
    } else {
        None
    }
}

/// The canonical `Content-Encoding` token of each algorithm.
pub open spec fn spec_name(kind: CompressionKind) -> Seq<char> {
    match kind {
        CompressionKind::Gzip => "gzip"@,
        CompressionKind::Deflate => "deflate"@,
        CompressionKind::Zstd => "zstd"@,
        CompressionKind::Br => "br"@,
    }
}

/// Whether `needle` occurs in `hay` starting at `at`.
fn matches_at(hay: &[u8], needle: &[u8], at: usize) -> (r: bool)
    requires
        at + needle@.len() <= hay@.len(),
    ensures
        r == (hay@.subrange(at as int, at + needle@.len()) == needle@),
{
    let n = needle.len();
    let h = hay.len();
    let mut j: usize = 0;
    while j < n
        invariant
            n == needle@.len(),
            h == hay@.len(),
            at + n <= h,
            j <= n,
            forall|t: int| 0 <= t < j ==> hay@[at + t] == needle@[t],
        decreases n - j,
    {
        if hay[at + j] != needle[j] {
            proof {
                assert(hay@.subrange(at as int, at + needle@.len())[j as int] == hay@[at + j]);
            }
            return false;
        }
        j += 1;
    }
    proof {
        assert(hay@.subrange(at as int, at + needle@.len()) =~= needle@);
    }
    true
}

/// Whether `needle` occurs contiguously anywhere inside `hay`.
pub fn contains_subslice(hay: &[u8], needle: &[u8]) -> (r: bool)
    ensures
        r == contains_token(hay@, needle@),
{
    let n = needle.len();
    let h = hay.len();
    if n > h {
        return false;
    }
    if n == 0 {
        proof {
            assert(hay@.subrange(0, 0 + needle@.len() as int) =~= needle@);
        }
        return true;
    }
    let mut i: usize = 0;
    while i <= h - n
        invariant
            n == needle@.len(),
            h == hay@.len(),
            1 <= n <= h,
            i <= h - n + 1,
            forall|j: int| 0 <= j < i ==> #[trigger] hay@.subrange(j, j + n as int) != needle@,
        decreases h + 1 - i,
    {
        if matches_at(hay, needle, i) {
            proof {
                assert(hay@.subrange(i as int, i + n as int) == needle@);
            }
            return true;
        }
        i += 1;
    }
    proof {
        assert forall|j: int| 0 <= j && j + needle@.len() <= hay@.len() implies #[trigger] hay@
            .subrange(j, j + needle@.len() as int) != needle@ by {
            assert(j < i);
        }
    }
    false
}

fn token_gzip_exec() -> (r: Vec<u8>)
    ensures
        r@ == token_gzip(),
{
    let mut v: Vec<u8> = Vec::new();
    v.push(103);
    v.push(122);
    v.push(105);
    v.push(112);
    proof {
        assert(v@ =~= token_gzip());
    }
    v
}

fn token_deflate_exec() -> (r: Vec<u8>)
    ensures
        r@ == token_deflate(),
{
    let mut v: Vec<u8> = Vec::new();
    v.push(100);
    v.push(101);
    v.push(102);
    v.push(108);
    v.push(97);
    v.push(116);
    v.push(101);
    proof {
        assert(v@ =~= token_deflate());
    }
    v
}

fn token_zstd_exec() -> (r: Vec<u8>)
    ensures
        r@ == token_zstd(),
{
    let mut v: Vec<u8> = Vec::new();
    v.push(122);
    v.push(115);
    v.push(116);
    v.push(100);
    proof {
        assert(v@ =~= token_zstd());
    }
    v
}

fn token_br_exec() -> (r: Vec<u8>)
    ensures
        r@ == token_br(),
{
    let mut v: Vec<u8> = Vec::new();
    v.push(98);
    v.push(114);
    proof {
        assert(v@ =~= token_br());
    }
    v
}

impl CompressionKind {
    /// Selects the preferred algorithm mentioned anywhere in the raw
    /// `Accept-Encoding` value, or `None` if no supported token occurs.
    pub fn select(accept: &[u8]) -> (r: Option<CompressionKind>)
        ensures
            r == spec_select(accept@),
    {
        let zstd_token = token_zstd_exec();
        if contains_subslice(accept, zstd_token.as_slice()) {
            return Some(CompressionKind::Zstd);
        }
        let br_token = token_br_exec();
        if contains_subslice(accept, br_token.as_slice()) {
            return Some(CompressionKind::Br);
        }
        let gzip_token = token_gzip_exec();
        if contains_subslice(accept, gzip_token.as_slice()) {
            return Some(CompressionKind::Gzip);
        }
        let deflate_token = token_deflate_exec();
        if contains_subslice(accept, deflate_token.as_slice()) {
            return Some(CompressionKind::Deflate);
        }
        None
    }

    /// The canonical `Content-Encoding` token for this algorithm.
    pub fn name(&self) -> (r: &'static str)
        ensures
            r@ == spec_name(*self),
    {
        match self {
            CompressionKind::Gzip => "gzip",
            CompressionKind::Deflate => "deflate",
            CompressionKind::Zstd => "zstd",
            CompressionKind::Br => "br",
        }
    }
}

/// Holds flate2's gzip stream compressor, writing into an in-memory buffer.
/// Its generic `Write` bound keeps the type itself from being declared to
/// the verifier, so the whole holder is opaque and is touched only through
/// the trusted wrappers below.
#[verifier::external_body]
struct GzipStream {
    inner: flate2::write::GzEncoder<Vec<u8>>,
}

/// Holds flate2's zlib (deflate) stream compressor; see `GzipStream`.
#[verifier::external_body]
struct DeflateStream {
    inner: flate2::write::ZlibEncoder<Vec<u8>>,
}

/// Holds zstd's stream compressor; see `GzipStream`.
#[verifier::external_body]
struct ZstdStream {
    inner: zstd::stream::write::Encoder<'static, Vec<u8>>,
}

/// Holds brotli's stream compressor; see `GzipStream`.
#[verifier::external_body]
struct BrotliStream {
    inner: Box<brotli::CompressorWriter<Vec<u8>>>,
}

/// Relies on flate2::write::GzEncoder::new: builds a gzip compressor, at the
/// highest compression level, that writes its output into the given buffer.
#[verifier::external_body]
fn gzip_new() -> GzipStream {
    GzipStream { inner: flate2::write::GzEncoder::new(Vec::new(), flate2::Compression::best()) }
}

/// Relies on std::io::Write::write_all through flate2's gzip compressor: on
/// `Ok` the whole buffer was accepted; any underlying error is returned
/// unchanged.
#[verifier::external_body]
fn gzip_write(encoder: &mut GzipStream, data: &[u8]) -> Result<(), std::io::Error> {
    std::io::Write::write_all(&mut encoder.inner, data)
}

/// Relies on flate2::write::GzEncoder::get_mut: moves the compressed output
/// accumulated so far out of the sink, leaving the sink empty.
#[verifier::external_body]
fn gzip_take(encoder: &mut GzipStream) -> Vec<u8> {
    std::mem::take(encoder.inner.get_mut())
}

/// Relies on flate2::write::GzEncoder::finish: flushes and terminates the
/// gzip stream, returning the sink with the remaining output and trailer.
#[verifier::external_body]
fn gzip_finish(encoder: GzipStream) -> Result<Vec<u8>, std::io::Error> {
    encoder.inner.finish()
}

/// Relies on flate2::write::ZlibEncoder::new: builds a zlib compressor, at
/// the highest compression level, writing into the given buffer.
#[verifier::external_body]
fn deflate_new() -> DeflateStream {
    DeflateStream { inner: flate2::write::ZlibEncoder::new(Vec::new(), flate2::Compression::best()) }
}

/// Relies on std::io::Write::write_all through flate2's zlib compressor: on
/// `Ok` the whole buffer was accepted.
#[verifier::external_body]
fn deflate_write(encoder: &mut DeflateStream, data: &[u8]) -> Result<(), std::io::Error> {
    std::io::Write::write_all(&mut encoder.inner, data)
}

/// Relies on flate2::write::ZlibEncoder::get_mut: moves the accumulated
/// output out of the sink, leaving it empty.
#[verifier::external_body]
fn deflate_take(encoder: &mut DeflateStream) -> Vec<u8> {
    std::mem::take(encoder.inner.get_mut())
}

/// Relies on flate2::write::ZlibEncoder::finish: flushes and terminates the
/// zlib stream, returning the sink with the remaining output.
#[verifier::external_body]
fn deflate_finish(encoder: DeflateStream) -> Result<Vec<u8>, std::io::Error> {
    encoder.inner.finish()
}

/// Relies on zstd::stream::write::Encoder::new at level 6: fails only when
/// the underlying library rejects the setup.
#[verifier::external_body]
fn zstd_new() -> Result<ZstdStream, std::io::Error> {
    Ok(ZstdStream { inner: zstd::stream::write::Encoder::new(Vec::new(), 6)? })
}

/// Relies on std::io::Write::write_all through zstd's compressor: on `Ok`
/// the whole buffer was accepted.
#[verifier::external_body]
fn zstd_write(encoder: &mut ZstdStream, data: &[u8]) -> Result<(), std::io::Error> {
    std::io::Write::write_all(&mut encoder.inner, data)
}

/// Relies on zstd::stream::write::Encoder::get_mut: moves the accumulated
/// output out of the sink, leaving it empty.
#[verifier::external_body]
fn zstd_take(encoder: &mut ZstdStream) -> Vec<u8> {
    std::mem::take(encoder.inner.get_mut())
}

/// Relies on zstd::stream::write::Encoder::finish: terminates the zstd
/// frame, returning the sink with the remaining output.
#[verifier::external_body]
fn zstd_finish(encoder: ZstdStream) -> Result<Vec<u8>, std::io::Error> {
    encoder.inner.finish()
}

/// Relies on brotli::CompressorWriter::new with a 32 KiB buffer, quality 3
/// and window 22: builds a brotli compressor writing into the given buffer.
#[verifier::external_body]
fn brotli_new() -> BrotliStream {
    BrotliStream { inner: Box::new(brotli::CompressorWriter::new(Vec::new(), 32 * 1024, 3, 22)) }
}

/// Relies on std::io::Write::write_all through brotli's compressor: on `Ok`
/// the whole buffer was accepted.
#[verifier::external_body]
fn brotli_write(encoder: &mut BrotliStream, data: &[u8]) -> Result<(), std::io::Error> {
    std::io::Write::write_all(encoder.inner.as_mut(), data)
}

/// Relies on brotli::CompressorWriter::get_mut: moves the accumulated output
/// out of the sink, leaving it empty.
#[verifier::external_body]
fn brotli_take(encoder: &mut BrotliStream) -> Vec<u8> {
    std::mem::take(encoder.inner.get_mut())
}

/// Relies on std::io::Write::flush through brotli's compressor: pushes all
/// pending input through to the sink.
#[verifier::external_body]
fn brotli_flush(encoder: &mut BrotliStream) -> Result<(), std::io::Error> {
    std::io::Write::flush(encoder.inner.as_mut())
}

/// Relies on brotli::CompressorWriter::into_inner: consumes the compressor
/// and returns its sink.
#[verifier::external_body]
fn brotli_into_inner(encoder: BrotliStream) -> Vec<u8> {
    (*encoder.inner).into_inner()
}

enum Algo {
    Gzip(GzipStream),
    Deflate(DeflateStream),
    Zstd(ZstdStream),
    Br(BrotliStream),
}

/// The live state of one compression algorithm together with its internal
/// accumulation buffer. Once `finish` is invoked the value is consumed.
pub struct CompressionEncoder {
    algo: Algo,
    fed: Ghost<Seq<u8>>,
}

impl CompressionEncoder {
    /// Which algorithm this encoder runs.
    pub closed spec fn kind(&self) -> CompressionKind {
        match self.algo {
            Algo::Gzip(_) => CompressionKind::Gzip,
            Algo::Deflate(_) => CompressionKind::Deflate,
            Algo::Zstd(_) => CompressionKind::Zstd,
            Algo::Br(_) => CompressionKind::Br,
        }
    }

    /// The input bytes successfully handed to the algorithm so far, in
    /// arrival order.
    pub closed spec fn fed(&self) -> Seq<u8> {
        self.fed@
    }

    /// Constructs the encoder for the given algorithm with this layer's
    /// fixed quality parameters. Only zstd setup can fail.
    pub fn new(kind: CompressionKind) -> (r: Result<CompressionEncoder, SendError>)
        ensures
            r matches Ok(encoder) ==> encoder.kind() == kind && encoder.fed()
                == Seq::<u8>::empty(),
            kind != CompressionKind::Zstd ==> r is Ok,
            r matches Err(e) ==> e is Io,
    {
        let algo = match kind {
            CompressionKind::Gzip => Algo::Gzip(gzip_new()),
            CompressionKind::Deflate => Algo::Deflate(deflate_new()),
            CompressionKind::Zstd => {
                match zstd_new() {
                    Ok(encoder) => Algo::Zstd(encoder),
                    Err(e) => {
                        return Err(SendError::Io(e));
                    }
                }
            }
            CompressionKind::Br => Algo::Br(brotli_new()),
        };
        Ok(CompressionEncoder { algo, fed: Ghost(Seq::<u8>::empty()) })
    }

    /// The canonical `Content-Encoding` token of the active algorithm.
    pub fn name(&self) -> (r: &'static str)
        ensures
            r@ == spec_name(self.kind()),
    {
        match &self.algo {
            Algo::Gzip(_) => "gzip",
            Algo::Deflate(_) => "deflate",
            Algo::Zstd(_) => "zstd",
            Algo::Br(_) => "br",
        }
    }

    /// Feeds input into the live algorithm; compressed output accumulates in
    /// the internal buffer. An underlying error is surfaced unchanged and
    /// the bytes do not count as fed.
    pub fn write(&mut self, data: &[u8]) -> (r: Result<(), SendError>)
        ensures
            final(self).kind() == old(self).kind(),
            r is Ok ==> final(self).fed() == old(self).fed() + data@,
            r is Err ==> final(self).fed() == old(self).fed(),
            r matches Err(e) ==> e is Io,
    {
        let result = match &mut self.algo {
            Algo::Gzip(encoder) => gzip_write(encoder, data),
            Algo::Deflate(encoder) => deflate_write(encoder, data),
            Algo::Zstd(encoder) => zstd_write(encoder, data),
            Algo::Br(encoder) => brotli_write(encoder, data),
        };
        match result {
            Ok(()) => {
                self.fed = Ghost(self.fed@ + data@);
                Ok(())
            }
            Err(e) => Err(SendError::Io(e)),
        }
    }

    /// Removes and returns whatever compressed output has been produced so
    /// far, without disturbing the algorithm's state; may be empty.
    pub fn drain_available_output(&mut self) -> (r: Vec<u8>)
        ensures
            final(self).kind() == old(self).kind(),
            final(self).fed() == old(self).fed(),
    {
        match &mut self.algo {
            Algo::Gzip(encoder) => gzip_take(encoder),
            Algo::Deflate(encoder) => deflate_take(encoder),
            Algo::Zstd(encoder) => zstd_take(encoder),
            Algo::Br(encoder) => brotli_take(encoder),
        }
    }

    /// Flushes and terminates the algorithm, returning any remaining output
    /// including required trailers; consumes the encoder.
    pub fn finish(self) -> (r: Result<Vec<u8>, SendError>)
        ensures
            r matches Err(e) ==> e is Io,
    {
        let result = match self.algo {
            Algo::Gzip(encoder) => gzip_finish(encoder),
            Algo::Deflate(encoder) => deflate_finish(encoder),
            Algo::Zstd(encoder) => zstd_finish(encoder),
            Algo::Br(encoder) => {
                let mut encoder = encoder;
                match brotli_flush(&mut encoder) {
                    Ok(()) => Ok(brotli_into_inner(encoder)),
                    Err(e) => Err(e),
                }
            }
        };
        match result {
            Ok(bytes) => Ok(bytes),
            Err(e) => Err(SendError::Io(e)),
        }
    }
}

} // verus!
