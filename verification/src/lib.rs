//! Outbound HTTP message pipeline: framing encoders for response bodies
//! (fixed-length, chunked, none), a response-level protocol state machine,
//! streaming content compression behind a uniform encoder interface, and
//! the policy layer that negotiates and installs compression per response.

pub mod protocol;
pub mod hex;
pub mod length_encoder;
pub mod chunked_encoder;
pub mod chunked_decode;
pub mod payload_encoder;
pub mod response_encoder;
pub mod compress;
pub mod body_stream;
pub mod interceptor;
