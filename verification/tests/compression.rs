use std::io::Read;

use micro_http::body_stream::{CompressedBodyStream, PullStep, UpstreamEvent};
use micro_http::compress::{CompressionEncoder, CompressionKind};
use micro_http::protocol::SendError;

/// Drives `chunks` through a fresh stream for `kind`, collecting the
/// concatenation of all emitted frames and asserting the stream's
/// end-of-stream discipline along the way.
fn drive(kind: CompressionKind, chunks: &[&[u8]]) -> Vec<u8> {
    let encoder = CompressionEncoder::new(kind).unwrap();
    let mut stream = CompressedBodyStream::new(encoder);
    let mut out: Vec<u8> = Vec::new();
    for chunk in chunks {
        match stream.on_upstream(UpstreamEvent::Data(chunk.to_vec())) {
            PullStep::Emit(frame) => {
                assert!(!frame.is_empty());
                out.extend_from_slice(&frame);
            }
            PullStep::NeedInput => {}
            _ => panic!("unexpected step while feeding data"),
        }
    }
    match stream.on_upstream(UpstreamEvent::End) {
        PullStep::Emit(frame) => {
            assert!(!frame.is_empty());
            out.extend_from_slice(&frame);
        }
        PullStep::Finished => {}
        _ => panic!("unexpected step at end of stream"),
    }
    // Finish-once: every later poll reports end-of-stream and nothing else.
    for _ in 0..3 {
        assert!(matches!(stream.on_upstream(UpstreamEvent::End), PullStep::Finished));
    }
    assert!(matches!(
        stream.on_upstream(UpstreamEvent::Data(b"late".to_vec())),
        PullStep::Finished
    ));
    out
}

fn sample_chunks() -> Vec<Vec<u8>> {
    let mut big = Vec::new();
    for i in 0..40960u32 {
        big.push((i % 251) as u8);
    }
    vec![b"hello world, ".to_vec(), b"hello again, ".to_vec(), big]
}

fn concat(chunks: &[Vec<u8>]) -> Vec<u8> {
    let mut all = Vec::new();
    for c in chunks {
        all.extend_from_slice(c);
    }
    all
}

#[test]
fn round_trip_gzip() {
    let chunks = sample_chunks();
    let refs: Vec<&[u8]> = chunks.iter().map(|c| c.as_slice()).collect();
    let compressed = drive(CompressionKind::Gzip, &refs);
    let mut decoded = Vec::new();
    flate2::read::GzDecoder::new(&compressed[..]).read_to_end(&mut decoded).unwrap();
    assert_eq!(decoded, concat(&chunks));
}

#[test]
fn round_trip_deflate() {
    let chunks = sample_chunks();
    let refs: Vec<&[u8]> = chunks.iter().map(|c| c.as_slice()).collect();
    let compressed = drive(CompressionKind::Deflate, &refs);
    let mut decoded = Vec::new();
    flate2::read::ZlibDecoder::new(&compressed[..]).read_to_end(&mut decoded).unwrap();
    assert_eq!(decoded, concat(&chunks));
}

#[test]
fn round_trip_zstd() {
    let chunks = sample_chunks();
    let refs: Vec<&[u8]> = chunks.iter().map(|c| c.as_slice()).collect();
    let compressed = drive(CompressionKind::Zstd, &refs);
    let decoded = zstd::stream::decode_all(&compressed[..]).unwrap();
    assert_eq!(decoded, concat(&chunks));
}

#[test]
fn round_trip_brotli() {
    let chunks = sample_chunks();
    let refs: Vec<&[u8]> = chunks.iter().map(|c| c.as_slice()).collect();
    let compressed = drive(CompressionKind::Br, &refs);
    let mut decoded = Vec::new();
    brotli::Decompressor::new(&compressed[..], 4096).read_to_end(&mut decoded).unwrap();
    assert_eq!(decoded, concat(&chunks));
}

#[test]
fn compressed_output_differs_from_input() {
    // The stream must hand real compressor output on, not its input.
    let chunks = sample_chunks();
    let refs: Vec<&[u8]> = chunks.iter().map(|c| c.as_slice()).collect();
    let compressed = drive(CompressionKind::Gzip, &refs);
    let all = concat(&chunks);
    assert_ne!(compressed, all);
    assert!(compressed.len() < all.len());
}

#[test]
fn encoder_names_match_kinds() {
    for kind in [
        CompressionKind::Gzip,
        CompressionKind::Deflate,
        CompressionKind::Zstd,
        CompressionKind::Br,
    ] {
        let encoder = CompressionEncoder::new(kind).unwrap();
        assert_eq!(encoder.name(), kind.name());
    }
}

#[test]
fn trailer_frame_is_invalid_body() {
    let encoder = CompressionEncoder::new(CompressionKind::Gzip).unwrap();
    let mut stream = CompressedBodyStream::new(encoder);
    match stream.on_upstream(UpstreamEvent::Trailers) {
        PullStep::Failed(e) => {
            assert!(e.is_invalid_body());
            assert!(!e.is_protocol_violation());
        }
        _ => panic!("trailer frame must fail as a body-format error"),
    }
}

#[test]
fn upstream_failure_is_invalid_body() {
    let encoder = CompressionEncoder::new(CompressionKind::Zstd).unwrap();
    let mut stream = CompressedBodyStream::new(encoder);
    match stream.on_upstream(UpstreamEvent::Failure("boom".to_string())) {
        PullStep::Failed(SendError::InvalidBody(message)) => {
            assert_eq!(message, "boom");
        }
        _ => panic!("upstream failure must surface as a body-format error"),
    }
}

#[test]
fn empty_input_still_produces_valid_stream() {
    // No data at all: `finish` alone must still emit a decodable stream.
    let compressed = drive(CompressionKind::Gzip, &[]);
    let mut decoded = Vec::new();
    flate2::read::GzDecoder::new(&compressed[..]).read_to_end(&mut decoded).unwrap();
    assert!(decoded.is_empty());
}
