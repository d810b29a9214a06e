use micro_http::chunked_encoder::ChunkedEncoder;
use micro_http::hex::to_hex;
use micro_http::length_encoder::LengthEncoder;
use micro_http::payload_encoder::PayloadEncoder;
use micro_http::protocol::PayloadItem;

#[test]
fn chunked_frames_small_chunk() {
    let mut encoder = ChunkedEncoder::new();
    let mut out: Vec<u8> = Vec::new();
    let r = encoder.encode(PayloadItem::Chunk(b"hello".to_vec()), &mut out);
    assert!(r.is_ok());
    assert_eq!(out, b"5\r\nhello\r\n".to_vec());
}

#[test]
fn chunked_eof_emits_terminator() {
    let mut encoder = ChunkedEncoder::new();
    let mut out: Vec<u8> = Vec::new();
    let r = encoder.encode(PayloadItem::Eof, &mut out);
    assert!(r.is_ok());
    assert_eq!(out, b"0\r\n\r\n".to_vec());
}

#[test]
fn chunked_drops_empty_chunk() {
    let mut encoder = ChunkedEncoder::new();
    let mut out: Vec<u8> = Vec::new();
    let r = encoder.encode(PayloadItem::Chunk(Vec::new()), &mut out);
    assert!(r.is_ok());
    assert!(out.is_empty());
}

#[test]
fn chunked_hex_sizes() {
    // 255 bytes -> "ff", 16 bytes -> "10": lowercase shortest hex.
    let mut encoder = ChunkedEncoder::new();
    let mut out: Vec<u8> = Vec::new();
    let chunk = vec![7u8; 255];
    encoder.encode(PayloadItem::Chunk(chunk.clone()), &mut out).unwrap();
    let mut expected = b"ff\r\n".to_vec();
    expected.extend_from_slice(&chunk);
    expected.extend_from_slice(b"\r\n");
    assert_eq!(out, expected);

    let mut out2: Vec<u8> = Vec::new();
    encoder.encode(PayloadItem::Chunk(vec![1u8; 16]), &mut out2).unwrap();
    assert_eq!(&out2[..4], b"10\r\n");
}

#[test]
fn to_hex_exact_values() {
    assert_eq!(to_hex(0), b"0".to_vec());
    assert_eq!(to_hex(10), b"a".to_vec());
    assert_eq!(to_hex(255), b"ff".to_vec());
    assert_eq!(to_hex(4096), b"1000".to_vec());
    assert_eq!(to_hex(48879), b"beef".to_vec());
}

#[test]
fn length_encoder_passthrough() {
    let mut encoder = LengthEncoder::new(11);
    let mut out: Vec<u8> = Vec::new();
    encoder.encode(PayloadItem::Chunk(b"hello".to_vec()), &mut out).unwrap();
    encoder.encode(PayloadItem::Chunk(b" world".to_vec()), &mut out).unwrap();
    assert_eq!(out, b"hello world".to_vec());
    encoder.encode(PayloadItem::Eof, &mut out).unwrap();
    assert_eq!(out, b"hello world".to_vec());
}

#[test]
fn length_encoder_zero_length_is_noop() {
    let mut encoder = LengthEncoder::new(0);
    let mut out: Vec<u8> = Vec::new();
    encoder.encode(PayloadItem::Chunk(b"ignored".to_vec()), &mut out).unwrap();
    assert!(out.is_empty());
    encoder.encode(PayloadItem::Eof, &mut out).unwrap();
    assert!(out.is_empty());
}

#[test]
fn length_encoder_drops_empty_chunk() {
    let mut encoder = LengthEncoder::new(5);
    let mut out: Vec<u8> = Vec::new();
    encoder.encode(PayloadItem::Chunk(Vec::new()), &mut out).unwrap();
    assert!(out.is_empty());
}

#[test]
fn payload_encoder_kinds() {
    let empty = PayloadEncoder::empty();
    assert!(empty.is_empty());
    assert!(!empty.is_chunked());
    assert!(!empty.is_fix_length());

    let chunked = PayloadEncoder::chunked();
    assert!(chunked.is_chunked());
    assert!(!chunked.is_empty());
    assert!(!chunked.is_fix_length());

    let fixed = PayloadEncoder::fix_length(9);
    assert!(fixed.is_fix_length());
    assert!(!fixed.is_chunked());
    assert!(!fixed.is_empty());
}

#[test]
fn payload_encoder_dispatches() {
    let mut chunked = PayloadEncoder::chunked();
    let mut out: Vec<u8> = Vec::new();
    chunked.encode(PayloadItem::Chunk(b"ab".to_vec()), &mut out).unwrap();
    chunked.encode(PayloadItem::Eof, &mut out).unwrap();
    assert_eq!(out, b"2\r\nab\r\n0\r\n\r\n".to_vec());

    let mut fixed = PayloadEncoder::fix_length(2);
    let mut out2: Vec<u8> = Vec::new();
    fixed.encode(PayloadItem::Chunk(b"ab".to_vec()), &mut out2).unwrap();
    assert_eq!(out2, b"ab".to_vec());

    let mut none = PayloadEncoder::empty();
    let mut out3: Vec<u8> = Vec::new();
    none.encode(PayloadItem::Chunk(b"ab".to_vec()), &mut out3).unwrap();
    none.encode(PayloadItem::Eof, &mut out3).unwrap();
    assert!(out3.is_empty());
}

/// A plain chunked-transfer decoder: returns the concatenated payload of a
/// well-formed chunked body terminated by the zero chunk.
fn decode_chunked(mut s: &[u8]) -> Option<Vec<u8>> {
    let mut payload = Vec::new();
    loop {
        let mut k = 0;
        let mut n: usize = 0;
        while k < s.len() && (s[k] as char).is_ascii_hexdigit() {
            n = n * 16 + (s[k] as char).to_digit(16).unwrap() as usize;
            k += 1;
        }
        if k == 0 || s.len() < k + 2 || s[k] != b'\r' || s[k + 1] != b'\n' {
            return None;
        }
        if n == 0 {
            if s.len() == k + 4 && s[k + 2] == b'\r' && s[k + 3] == b'\n' {
                return Some(payload);
            }
            return None;
        }
        if s.len() < k + 2 + n + 2 || s[k + 2 + n] != b'\r' || s[k + 2 + n + 1] != b'\n' {
            return None;
        }
        payload.extend_from_slice(&s[k + 2..k + 2 + n]);
        s = &s[k + 2 + n + 2..];
    }
}

#[test]
fn chunked_round_trip_decodes() {
    let chunks: Vec<Vec<u8>> = vec![
        b"hello".to_vec(),
        vec![0u8; 300],
        b"\r\n".to_vec(),
        vec![255u8; 17],
    ];
    let mut encoder = ChunkedEncoder::new();
    let mut wire: Vec<u8> = Vec::new();
    for chunk in &chunks {
        encoder.encode(PayloadItem::Chunk(chunk.clone()), &mut wire).unwrap();
    }
    encoder.encode(PayloadItem::Eof, &mut wire).unwrap();
    let mut all = Vec::new();
    for chunk in &chunks {
        all.extend_from_slice(chunk);
    }
    assert_eq!(decode_chunked(&wire), Some(all));
}

#[test]
fn zero_length_chunk_all_modes() {
    let mut out: Vec<u8> = Vec::new();
    PayloadEncoder::chunked().encode(PayloadItem::Chunk(Vec::new()), &mut out).unwrap();
    PayloadEncoder::fix_length(7).encode(PayloadItem::Chunk(Vec::new()), &mut out).unwrap();
    PayloadEncoder::empty().encode(PayloadItem::Chunk(Vec::new()), &mut out).unwrap();
    assert!(out.is_empty());
}
