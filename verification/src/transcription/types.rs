//! The records that flow through transcription. Floating-point values of
//! the audio pipeline are carried here as their IEEE-754 bit patterns
//! (`f32::to_bits`, `f64::to_bits`): the logic stores and forwards them
//! without doing arithmetic on them.
use std::time::Instant;
use vstd::prelude::*;

verus! {

/// A slice of captured audio waiting to be transcribed.
pub struct AudioChunk {
    /// Samples as `f32` bit patterns.
    pub samples: Vec<u32>,
    /// Seconds since collection started, as an `f64` bit pattern.
    pub timestamp: u64,
    pub chunk_id: u64,
    pub start_time: Instant,
    pub recording_start_time: Instant,
}

/// A sentence ready to be shown, complete or cut short by a pause.
#[derive(Clone)]
pub struct TranscriptUpdate {
    pub text: String,
    /// Start of the sentence within its chunk (the `t0` of its first
    /// segment), as an `f32` bit pattern; the displayed timestamp is
    /// formatted from it and `chunk_start_time`.
    pub sentence_start_time: u32,
    pub source: String,
    pub sequence_id: u64,
    /// Start of the chunk, as an `f64` bit pattern.
    pub chunk_start_time: u64,
    pub is_partial: bool,
}

/// One piece of text returned by the speech recogniser.
pub struct TranscriptSegment {
    pub text: String,
    /// Segment start and end, as `f32` bit patterns.
    pub t0: u32,
    pub t1: u32,
    /// Whether `t1 - t0 < 1.0` in `f32` arithmetic; such segments are too
    /// short to keep.
    pub too_short: bool,
}

/// The recogniser's reply for one chunk.
pub struct TranscriptResponse {
    pub segments: Vec<TranscriptSegment>,
    pub buffer_size_ms: i32,
}

/// What the user interface is told about transcription progress.
pub struct TranscriptionStatus {
    pub chunks_in_queue: usize,
    pub is_processing: bool,
    pub last_activity_ms: u64,
}

} // verus!
