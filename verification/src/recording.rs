//! Policies of a recording session: when captured audio becomes a chunk,
//! how long stopping waits, what the status report says, how transcription
//! failures are counted and reported, and the names given to a session.
use crate::text::{decimal_value, lemma_decimal_round_trip, chars_of, contains, contains_seq, ends_with, push_decimal, starts_with, string_from_chars, trim, decimal, trim_seq, starts_with_seq, ends_with_seq};
use crate::transcription::types::{TranscriptSegment, TranscriptionStatus};
use crate::wav::WHISPER_SAMPLE_RATE;
use std::time::Instant;
use vstd::prelude::*;

verus! {

/// Audio is sent to the recogniser in chunks of this length.
pub const CHUNK_DURATION_MS: u32 = 30000;

/// A chunk cut by the timer must hold at least this much audio.
pub const MIN_CHUNK_DURATION_MS: u32 = 2000;

/// Stopping waits until a recording is at least this long.
pub const MIN_RECORDING_DURATION_MS: u64 = 2000;

/// The chunk queue never holds more than this many chunks.
pub const MAX_AUDIO_QUEUE_SIZE: usize = 10;

/// Transcription workers started per recording.
pub const NUM_WORKERS: usize = 3;

/// Stopping waits at most this long for the workers to drain the queue.
pub const DRAIN_TIMEOUT_MS: u64 = 30000;

/// How often stopping looks at the workers again.
pub const DRAIN_POLL_MS: u64 = 100;

/// Failures closer together than this count as one burst.
pub const ERROR_WINDOW_SECS: u64 = 30;

/// Number of samples in `ms` milliseconds at the recogniser's rate.
pub open spec fn samples_for(ms: u32) -> nat {
    (WHISPER_SAMPLE_RATE as nat) * (ms as nat) / 1000
}

/// Samples in a full chunk.
pub fn chunk_sample_target() -> (n: usize)
    ensures
        n == samples_for(CHUNK_DURATION_MS),
{
    let rate: usize = WHISPER_SAMPLE_RATE as usize;
    let ms: usize = CHUNK_DURATION_MS as usize;
    assert(rate * ms == 480_000_000) by (nonlinear_arith)
        requires
            rate == 16000,
            ms == 30000,
    ;
    rate * ms / 1000
}

/// Samples a chunk cut by the timer must hold.
pub fn min_chunk_samples() -> (n: usize)
    ensures
        n == samples_for(MIN_CHUNK_DURATION_MS),
{
    let rate: usize = WHISPER_SAMPLE_RATE as usize;
    let ms: usize = MIN_CHUNK_DURATION_MS as usize;
    assert(rate * ms == 32_000_000) by (nonlinear_arith)
        requires
            rate == 16000,
            ms == 2000,
    ;
    rate * ms / 1000
}

/// Whether the `buffered` samples collected since the last chunk, the last
/// chunk cut `since_last_nanos` ago, become a chunk now: when a full chunk
/// has gathered, or when a chunk's time has passed and the minimum has
/// gathered.
pub fn should_create_chunk(buffered: usize, since_last_nanos: u128) -> (r: bool)
    ensures
        r == (buffered > 0 && (buffered >= samples_for(CHUNK_DURATION_MS) || (buffered
            >= samples_for(MIN_CHUNK_DURATION_MS) && since_last_nanos >= CHUNK_DURATION_MS
            * 1_000_000))),
{
    let period_nanos: u128 = (CHUNK_DURATION_MS as u128) * 1_000_000;
    let full = buffered >= chunk_sample_target();
    let timed = buffered >= min_chunk_samples() && since_last_nanos >= period_nanos;
    (full || timed) && buffered > 0
}

/// The status report: work is in progress while a worker runs or a chunk
/// waits, and the time since the last activity is `u64::MAX` when there
/// was none.
pub fn transcription_status(
    chunks_in_queue: usize,
    active_workers: u64,
    last_activity_ms: u64,
    now_ms: u64,
) -> (status: TranscriptionStatus)
    ensures
        status.chunks_in_queue == chunks_in_queue,
        status.is_processing == (active_workers > 0 || chunks_in_queue > 0),
        status.last_activity_ms == if last_activity_ms > 0 {
            if now_ms >= last_activity_ms {
                (now_ms - last_activity_ms) as u64
            } else {
                0
            }
        } else {
            u64::MAX
        },
{
    let is_processing = active_workers > 0 || chunks_in_queue > 0;
    let elapsed: u64 = if last_activity_ms > 0 {
        if now_ms >= last_activity_ms {
            now_ms - last_activity_ms
        } else {
            0
        }
    } else {
        u64::MAX
    };
    TranscriptionStatus { chunks_in_queue, is_processing, last_activity_ms: elapsed }
}

/// How long stopping must still wait so that the recording lasts at least
/// `MIN_RECORDING_DURATION_MS`.
pub fn min_duration_wait_ms(elapsed_ms: u64) -> (wait: u64)
    ensures
        wait == if elapsed_ms < MIN_RECORDING_DURATION_MS {
            (MIN_RECORDING_DURATION_MS - elapsed_ms) as u64
        } else {
            0
        },
        elapsed_ms + wait >= MIN_RECORDING_DURATION_MS,
{
    if elapsed_ms < MIN_RECORDING_DURATION_MS {
        MIN_RECORDING_DURATION_MS - elapsed_ms
    } else {
        0
    }
}

/// What stopping does next while it waits for the workers.
pub enum DrainStep {
    /// No worker runs and no chunk waits.
    Finished,
    /// Sleep `DRAIN_POLL_MS` and look again.
    Wait,
    /// Waited `DRAIN_TIMEOUT_MS` in vain.
    TimedOut,
}

/// The next step of stopping after `waited_ms` of waiting.
pub fn drain_step(waited_ms: u64, active_workers: u64, queue_len: usize) -> (step: DrainStep)
    ensures
        step == if waited_ms >= DRAIN_TIMEOUT_MS {
            DrainStep::TimedOut
        } else if active_workers == 0 && queue_len == 0 {
            DrainStep::Finished
        } else {
            DrainStep::Wait
        },
{
    if waited_ms >= DRAIN_TIMEOUT_MS {
        DrainStep::TimedOut
    } else if active_workers == 0 && queue_len == 0 {
        DrainStep::Finished
    } else {
        DrainStep::Wait
    }
}

/// Whether a worker leaves its loop: recording has stopped and no chunk
/// is left.
pub fn worker_should_stop(is_running: bool, queue_has_chunks: bool) -> (r: bool)
    ensures
        r == (!is_running && !queue_has_chunks),
{
    !is_running && !queue_has_chunks
}

/// Whether the last worker to leave announces that transcription is
/// complete: no worker is left and the queue is empty.
pub fn should_announce_completion(active_workers: u64, queue_empty: bool) -> (r: bool)
    ensures
        r == (active_workers == 0 && queue_empty),
{
    active_workers == 0 && queue_empty
}

/// A recording may start only when none is running.
pub fn check_can_start(is_recording: bool) -> (r: Result<(), String>)
    ensures
        is_recording <==> r is Err,
        r matches Err(e) ==> e@ == "Recording already in progress"@,
{
    if is_recording {
        Err(String::from_str("Recording already in progress"))
    } else {
        Ok(())
    }
}

/// The id of a meeting started `ms` milliseconds after the Unix epoch.
pub fn meeting_id(ms: u128) -> (id: String)
    ensures
        id@ == "meeting-"@ + decimal(ms as nat),
{
    let mut chars = chars_of("meeting-");
    push_decimal(&mut chars, ms);
    string_from_chars(chars.as_slice())
}

/// A meeting id gives back the time it was made from: after the
/// `meeting-` prefix come the decimal digits of the milliseconds.
pub proof fn lemma_meeting_id_gives_time(ms: u128, id: Seq<char>)
    requires
        id == "meeting-"@ + decimal(ms as nat),
    ensures
        id.subrange(0, 8) == "meeting-"@,
        decimal_value(id.skip(8)) == ms,
{
    reveal_strlit("meeting-");
    assert(id.subrange(0, 8) =~= "meeting-"@);
    assert(id.skip(8) =~= decimal(ms as nat));
    lemma_decimal_round_trip(ms as nat);
}

/// The file a recording stopped at the formatted time `timestamp` is
/// saved under.
pub fn recording_file_name(timestamp: &str) -> (name: String)
    ensures
        name@ == "recording_"@ + timestamp@ + ".wav"@,
{
    String::from_str("recording_").concat(timestamp).concat(".wav")
}

/// A segment whose trimmed text is wholly in parentheses or brackets, a
/// sound description rather than speech.
pub open spec fn is_bracketed(text: Seq<char>) -> bool {
    let t = trim_seq(text);
    ||| starts_with_seq(t, seq!['(']) && ends_with_seq(t, seq![')'])
    ||| starts_with_seq(t, seq!['[']) && ends_with_seq(t, seq![']'])
}

/// Whether a segment is a sound description to skip.
pub fn is_sound_description(text: &str) -> (r: bool)
    ensures
        r == is_bracketed(text@),
{
    let raw = chars_of(text);
    let t = trim(raw.as_slice());
    let open_paren: Vec<char> = vec!['('];
    let close_paren: Vec<char> = vec![')'];
    let open_bracket: Vec<char> = vec!['['];
    let close_bracket: Vec<char> = vec![']'];
    assert(open_paren@ =~= seq!['(']);
    assert(close_paren@ =~= seq![')']);
    assert(open_bracket@ =~= seq!['[']);
    assert(close_bracket@ =~= seq![']']);
    (starts_with(t.as_slice(), open_paren.as_slice()) && ends_with(
        t.as_slice(),
        close_paren.as_slice(),
    )) || (starts_with(t.as_slice(), open_bracket.as_slice()) && ends_with(
        t.as_slice(),
        close_bracket.as_slice(),
    ))
}

/// The message shown when transcription fails with `error`.
pub open spec fn failure_notice(error: Seq<char>) -> Seq<char> {
    if contains_seq(error, "Failed to connect"@) || contains_seq(error, "Connection refused"@) {
        "Transcription service is not available. Please check if the server is running."@
    } else if contains_seq(error, "timeout"@) {
        "Transcription service is not responding. Please check your connection."@
    } else {
        "Transcription service error: "@ + error
    }
}

pub fn transcription_error_message(error: &str) -> (m: String)
    ensures
        m@ == failure_notice(error@),
{
    let e = chars_of(error);
    let failed = chars_of("Failed to connect");
    let refused = chars_of("Connection refused");
    let timeout = chars_of("timeout");
    if contains(e.as_slice(), failed.as_slice()) || contains(e.as_slice(), refused.as_slice()) {
        String::from_str(
            "Transcription service is not available. Please check if the server is running.",
        )
    } else if contains(e.as_slice(), timeout.as_slice()) {
        String::from_str("Transcription service is not responding. Please check your connection.")
    } else {
        String::from_str("Transcription service error: ").concat(error)
    }
}

/// Transcription failures of a recording. The first failure of a burst
/// stops the recording and is reported once per recording.
pub struct TranscriptionErrors {
    count: u32,
    last_error_time: Option<Instant>,
    event_emitted: bool,
}

impl TranscriptionErrors {
    /// Failures in the current burst.
    pub closed spec fn failures(&self) -> u32 {
        self.count
    }

    /// Whether a failure is on record at all.
    pub closed spec fn has_last_failure(&self) -> bool {
        self.last_error_time is Some
    }

    /// When the last failure on record happened.
    pub closed spec fn last_failure(&self) -> Option<Instant> {
        self.last_error_time
    }

    /// Whether this recording already reported a failure.
    pub closed spec fn reported(&self) -> bool {
        self.event_emitted
    }

    pub fn new() -> (e: Self)
        ensures
            e.failures() == 0,
            !e.has_last_failure(),
            !e.reported(),
    {
        TranscriptionErrors { count: 0, last_error_time: None, event_emitted: false }
    }

    /// Failures in the current burst.
    pub fn failure_count(&self) -> (n: u32)
        ensures
            n == self.failures(),
    {
        self.count
    }

    /// A new recording may report a failure again.
    pub fn reset_for_recording(&mut self)
        ensures
            !final(self).reported(),
            final(self).failures() == old(self).failures(),
            final(self).has_last_failure() == old(self).has_last_failure(),
            final(self).last_failure() == old(self).last_failure(),
    {
        self.event_emitted = false;
    }

    /// Record a failure now. Returns whether it must be reported and the
    /// recording stopped.
    pub fn record_failure(&mut self) -> (report: bool)
        requires
            old(self).has_last_failure() ==> old(self).failures() < u32::MAX,
        ensures
            report ==> final(self).reported() && !old(self).reported(),
            !old(self).has_last_failure() ==> report == !old(self).reported(),
    {
        let now = Instant::now();
        let since_last_nanos = match self.last_error_time {
            Some(last) => Some(now.duration_since(last).as_nanos()),
            None => None,
        };
        self.record_failure_after(since_last_nanos, now)
    }

    /// The decision of `record_failure`, given how long ago the previous
    /// failure was, if there was one.
    pub fn record_failure_after(&mut self, since_last_nanos: Option<u128>, now: Instant) -> (report:
        bool)
        requires
            (since_last_nanos matches Some(n) && n < ERROR_WINDOW_SECS * 1_000_000_000) ==> old(
                self,
            ).failures() < u32::MAX,
            since_last_nanos is Some <==> old(self).has_last_failure(),
        ensures
            ({
                let in_burst = since_last_nanos matches Some(n) && n < ERROR_WINDOW_SECS
                    * 1_000_000_000;
                let count = if in_burst {
                    old(self).failures() + 1
                } else {
                    1
                };
                if count == 1 && !old(self).reported() {
                    &&& report
                    &&& final(self).reported()
                    &&& final(self).failures() == 0
                    &&& !final(self).has_last_failure()
                    &&& final(self).last_failure() is None
                } else {
                    &&& !report
                    &&& final(self).reported() == old(self).reported()
                    &&& final(self).failures() == count
                    &&& final(self).has_last_failure()
                    &&& final(self).last_failure() == Some(now)
                }
            }),
    {
        let window: u128 = (ERROR_WINDOW_SECS as u128) * 1_000_000_000;
        let in_burst = match since_last_nanos {
            Some(n) => n < window,
            None => false,
        };
        self.count = if in_burst {
            self.count + 1
        } else {
            1
        };
        self.last_error_time = Some(now);
        if self.count == 1 && !self.event_emitted {
            self.event_emitted = true;
            self.count = 0;
            self.last_error_time = None;
            true
        } else {
            false
        }
    }
}

/// Retries after the first attempt to send a chunk from the capture loop.
pub const AUDIO_MAX_RETRIES: u32 = 3;

/// `2` to the power `n`.
pub open spec fn doubling(n: nat) -> nat
    decreases n,
{
    if n == 0 {
        1
    } else {
        2 * doubling((n - 1) as nat)
    }
}

/// Doubling more often never gives less.
pub proof fn lemma_doubling_grows(i: nat, j: nat)
    requires
        i <= j,
    ensures
        doubling(i) <= doubling(j),
    decreases j - i,
{
    if i < j {
        lemma_doubling_grows(i, (j - 1) as nat);
    }
}

/// Wait before retry `retry` of a chunk upload: 100 ms, doubled for each
/// retry. The wait must fit in 64 bits.
pub fn audio_retry_delay_ms(retry: u32) -> (ms: u64)
    requires
        100 * doubling(retry as nat) <= u64::MAX,
    ensures
        ms == 100 * doubling(retry as nat),
{
    let mut factor: u64 = 1;
    let mut i: u32 = 0;
    while i < retry
        invariant
            i <= retry,
            100 * doubling(retry as nat) <= u64::MAX,
            factor == doubling(i as nat),
        decreases retry - i,
    {
        proof {
            lemma_doubling_grows((i + 1) as nat, retry as nat);
        }
        assert(doubling((i + 1) as nat) == 2 * doubling(i as nat));
        factor = factor * 2;
        i = i + 1;
    }
    100 * factor
}

/// Whether the capture loop may send a chunk again after `retry_count`
/// retries.
pub fn audio_may_attempt(retry_count: u32) -> (r: bool)
    ensures
        r == (retry_count <= AUDIO_MAX_RETRIES),
{
    retry_count <= AUDIO_MAX_RETRIES
}

/// The segment that goes to the accumulator once the backend has been
/// asked about `segment`, and whether the update it gives is announced.
/// `reply` is `None` when no meeting is open, so the backend was not asked.
/// Processed text replaces the segment's text and is announced; without
/// it the segment goes on unchanged and is not announced.
pub fn segment_after_backend(segment: &TranscriptSegment, reply: Option<Result<String, String>>) -> (r: (
    TranscriptSegment,
    bool,
))
    ensures
        r.0.t0 == segment.t0,
        r.0.t1 == segment.t1,
        r.0.too_short == segment.too_short,
        match reply {
            Some(Ok(text)) => r.0.text@ == text@ && r.1,
            _ => r.0.text@ == segment.text@ && !r.1,
        },
{
    match reply {
        Some(Ok(text)) => (
            TranscriptSegment {
                text,
                t0: segment.t0,
                t1: segment.t1,
                too_short: segment.too_short,
            },
            true,
        ),
        _ => (
            TranscriptSegment {
                text: segment.text.clone(),
                t0: segment.t0,
                t1: segment.t1,
                too_short: segment.too_short,
            },
            false,
        ),
    }
}

} // verus!
