//! The pull-based body transformer: drives a `CompressionEncoder` over the
//! frames of an upstream body, producing compressed output frames. The
//! caller owns the poll loop (the suspension points live there); this state
//! machine takes one upstream readiness event at a time and performs at most
//! one compression step per event. `finish` runs exactly once, on the first
//! upstream end-of-stream, and every later event reports end-of-stream.

use vstd::prelude::*;
use crate::compress::{CompressionEncoder, CompressionKind};
use crate::protocol::SendError;

verus! {

/// One readiness event pulled from the upstream body.
pub enum UpstreamEvent {
    /// A plain data frame.
    Data(Vec<u8>),
    /// A frame that carries trailers instead of data; never forwarded.
    Trailers,
    /// The upstream body itself failed, with its message.
    Failure(String),
    /// Upstream end-of-stream.
    End,
}

/// What one step of the transformer yields to the caller's poll loop.
pub enum PullStep {
    /// The next compressed output frame; never empty.
    Emit(Vec<u8>),
    /// Input was consumed but no output is available yet: pull the next
    /// upstream event and step again, rather than yielding an empty frame.
    NeedInput,
    /// End-of-stream: nothing more will ever be produced.
    Finished,
    /// The step failed; the error terminates the response's delivery.
    Failed(SendError),
}

/// Compresses an upstream body frame by frame. `Active` until upstream
/// end-of-stream is first observed, then permanently done.
pub struct CompressedBodyStream {
    encoder: Option<CompressionEncoder>,
    fed_at_end: Ghost<Seq<u8>>,
    emitted: Ghost<Seq<u8>>,
}

impl CompressedBodyStream {
    /// Whether upstream end-of-stream has been observed and the encoder
    /// finished.
    pub closed spec fn is_done(&self) -> bool {
        self.encoder is None
    }

    /// The active algorithm, while the stream is active.
    pub closed spec fn kind(&self) -> Option<CompressionKind> {
        match self.encoder {
            Some(encoder) => Some(encoder.kind()),
            None => None,
        }
    }

    /// The upstream bytes handed to the compression algorithm so far, in
    /// arrival order.
    pub closed spec fn fed(&self) -> Seq<u8> {
        match self.encoder {
            Some(encoder) => encoder.fed(),
            None => self.fed_at_end@,
        }
    }

    /// The concatenation of all output frames emitted so far: the compressed
    /// body as the consumer accumulates it.
    pub closed spec fn emitted(&self) -> Seq<u8> {
        self.emitted@
    }

    /// Wraps an upstream body's transformer around a fresh encoder.
    pub fn new(encoder: CompressionEncoder) -> (r: Self)
        ensures
            !r.is_done(),
            r.kind() == Some(encoder.kind()),
            r.fed() == encoder.fed(),
            r.emitted() == Seq::<u8>::empty(),
    {
        Self {
            encoder: Some(encoder),
            fed_at_end: Ghost(Seq::<u8>::empty()),
            emitted: Ghost(Seq::<u8>::empty()),
        }
    }

    /// Runs one step of the transformer on the next upstream event.
    ///
    /// While active: a data frame is fed to the encoder and the available
    /// output drained — a non-empty drain is emitted, an empty one asks the
    /// caller to pull more input first; a trailer frame or an upstream
    /// failure is surfaced as a body-format error without flushing; the
    /// first end-of-stream finishes the encoder exactly once and emits its
    /// final bytes if there are any. Once done, every event — no matter how
    /// often the stream is polled — reports `Finished` and leaves the stream
    /// untouched.
    pub fn on_upstream(&mut self, event: UpstreamEvent) -> (step: PullStep)
        ensures
            old(self).is_done() ==> step is Finished && *final(self) == *old(self),
            final(self).kind() == old(self).kind() || final(self).is_done(),
            step matches PullStep::Emit(frame) ==> final(self).emitted() == old(self).emitted()
                + frame@,
            !(step matches PullStep::Emit(_)) ==> final(self).emitted() == old(self).emitted(),
            !old(self).is_done() ==> match event {
                UpstreamEvent::Data(data) => !final(self).is_done() && match step {
                    PullStep::Emit(frame) => frame@.len() > 0 && final(self).fed() == old(
                        self,
                    ).fed() + data@,
                    PullStep::NeedInput => final(self).fed() == old(self).fed() + data@,
                    PullStep::Failed(e) => e is Io && final(self).fed() == old(self).fed(),
                    PullStep::Finished => false,
                },
                UpstreamEvent::Trailers => step matches PullStep::Failed(e) && e is InvalidBody
                    && *final(self) == *old(self),
                UpstreamEvent::Failure(_) => step matches PullStep::Failed(e)
                    && e is InvalidBody && *final(self) == *old(self),
                UpstreamEvent::End => final(self).is_done() && final(self).fed() == old(
                    self,
                ).fed() && match step {
                    PullStep::Emit(frame) => frame@.len() > 0,
                    PullStep::NeedInput => false,
                    PullStep::Finished => true,
                    PullStep::Failed(e) => e is Io,
                },
            },
    {
        if self.encoder.is_none() {
            return PullStep::Finished;
        }

        match event {
            UpstreamEvent::Data(data) => {
                let encoder = self.encoder.as_mut().unwrap();
                match encoder.write(data.as_slice()) {
                    Ok(()) => {}
                    Err(e) => {
                        return PullStep::Failed(e);
                    }
                }
                let bytes = encoder.drain_available_output();
                if bytes.len() == 0 {
                    PullStep::NeedInput
                } else {
                    proof {
                        self.emitted@ = self.emitted@ + bytes@;
                    }
                    PullStep::Emit(bytes)
                }
            }
            UpstreamEvent::Trailers => {
                PullStep::Failed(
                    SendError::InvalidBody(String::from_str("unexpected trailer frame in body")),
                )
            }
            UpstreamEvent::Failure(message) => {
                PullStep::Failed(SendError::InvalidBody(message))
            }
            UpstreamEvent::End => {
                let encoder = self.encoder.take().unwrap();
                proof {
                    self.fed_at_end@ = encoder.fed();
                }
                match encoder.finish() {
                    Ok(bytes) => {
                        if bytes.len() > 0 {
                            proof {
                                self.emitted@ = self.emitted@ + bytes@;
                            }
                            PullStep::Emit(bytes)
                        } else {
                            PullStep::Finished
                        }
                    }
                    Err(e) => PullStep::Failed(e),
                }
            }
        }
    }
}

} // verus!
