use meetily::recording::{
    audio_may_attempt, audio_retry_delay_ms, check_can_start, segment_after_backend, chunk_sample_target, drain_step, meeting_id,
    min_chunk_samples, min_duration_wait_ms, recording_file_name, should_announce_completion,
    should_create_chunk, transcription_error_message, transcription_status, worker_should_stop,
    is_sound_description, DrainStep, TranscriptionErrors,
};
use std::time::Instant;

#[test]
fn chunk_sizes_follow_the_sample_rate() {
    assert_eq!(chunk_sample_target(), 480_000);
    assert_eq!(min_chunk_samples(), 32_000);
}

#[test]
fn chunk_is_cut_when_full_or_when_its_time_has_come() {
    assert!(!should_create_chunk(0, u128::MAX));
    assert!(should_create_chunk(480_000, 0));
    assert!(!should_create_chunk(479_999, 29_999_999_999));
    assert!(should_create_chunk(32_000, 30_000_000_000));
    assert!(!should_create_chunk(31_999, 30_000_000_000));
}

#[test]
fn status_reports_work_and_idle_time() {
    let s = transcription_status(0, 0, 0, 5000);
    assert_eq!(s.chunks_in_queue, 0);
    assert!(!s.is_processing);
    assert_eq!(s.last_activity_ms, u64::MAX);
    let s = transcription_status(2, 0, 1000, 4500);
    assert!(s.is_processing);
    assert_eq!(s.last_activity_ms, 3500);
    let s = transcription_status(0, 1, 9000, 4500);
    assert!(s.is_processing);
    assert_eq!(s.last_activity_ms, 0);
}

#[test]
fn stopping_waits_for_the_minimum_duration() {
    assert_eq!(min_duration_wait_ms(0), 2000);
    assert_eq!(min_duration_wait_ms(500), 1500);
    assert_eq!(min_duration_wait_ms(2000), 0);
    assert_eq!(min_duration_wait_ms(u64::MAX), 0);
}

#[test]
fn draining_finishes_waits_or_times_out() {
    assert!(matches!(drain_step(0, 0, 0), DrainStep::Finished));
    assert!(matches!(drain_step(100, 2, 0), DrainStep::Wait));
    assert!(matches!(drain_step(100, 0, 3), DrainStep::Wait));
    assert!(matches!(drain_step(30_000, 2, 3), DrainStep::TimedOut));
    assert!(matches!(drain_step(30_000, 0, 0), DrainStep::TimedOut));
}

#[test]
fn workers_stop_only_when_recording_stopped_and_queue_empty() {
    assert!(worker_should_stop(false, false));
    assert!(!worker_should_stop(true, false));
    assert!(!worker_should_stop(false, true));
    assert!(should_announce_completion(0, true));
    assert!(!should_announce_completion(1, true));
    assert!(!should_announce_completion(0, false));
}

#[test]
fn second_recording_is_refused() {
    assert!(check_can_start(false).is_ok());
    assert_eq!(check_can_start(true), Err("Recording already in progress".to_string()));
}

#[test]
fn meeting_id_is_decimal_milliseconds() {
    assert_eq!(meeting_id(0), "meeting-0");
    assert_eq!(meeting_id(1_724_234_567_890), "meeting-1724234567890");
    assert_eq!(meeting_id(u128::MAX), format!("meeting-{}", u128::MAX));
}

#[test]
fn recording_file_is_named_after_its_time() {
    assert_eq!(recording_file_name("20250821_134501"), "recording_20250821_134501.wav");
}

#[test]
fn bracketed_segments_are_sound_descriptions() {
    assert!(is_sound_description("  (music playing) "));
    assert!(is_sound_description("[laughter]"));
    assert!(!is_sound_description("(aside"));
    assert!(!is_sound_description("[x)"));
    assert!(!is_sound_description("hello"));
    assert!(!is_sound_description(""));
}

#[test]
fn failures_are_explained() {
    assert_eq!(
        transcription_error_message("error sending request: Connection refused (os error 111)"),
        "Transcription service is not available. Please check if the server is running."
    );
    assert_eq!(
        transcription_error_message("Failed to connect to 127.0.0.1"),
        "Transcription service is not available. Please check if the server is running."
    );
    assert_eq!(
        transcription_error_message("operation timeout"),
        "Transcription service is not responding. Please check your connection."
    );
    assert_eq!(transcription_error_message("bad gateway"), "Transcription service error: bad gateway");
}

#[test]
fn first_failure_of_a_recording_is_reported_once() {
    let mut e = TranscriptionErrors::new();
    let now = Instant::now();
    assert!(e.record_failure_after(None, now));
    // the report cleared the burst, so no previous failure is on record
    assert!(!e.record_failure_after(None, now));
    assert!(!e.record_failure_after(Some(5_000_000_000), now));
    assert!(!e.record_failure_after(Some(40_000_000_000), now));
    e.reset_for_recording();
    assert!(e.record_failure_after(Some(40_000_000_000), now));
}

#[test]
fn failure_in_a_burst_is_not_reported_after_reset() {
    let mut e = TranscriptionErrors::new();
    let now = Instant::now();
    assert!(e.record_failure_after(None, now));
    assert!(!e.record_failure_after(None, now));
    e.reset_for_recording();
    // second failure within the window: the burst count is 2, not 1
    assert!(!e.record_failure_after(Some(1_000_000_000), now));
    // a failure right after is still in the burst
    assert!(!e.record_failure());
}

#[test]
fn chunk_upload_backs_off_exponentially() {
    assert_eq!(audio_retry_delay_ms(0), 100);
    assert_eq!(audio_retry_delay_ms(1), 200);
    assert_eq!(audio_retry_delay_ms(2), 400);
    assert_eq!(audio_retry_delay_ms(3), 800);
}

#[test]
fn chunk_upload_backoff_beyond_the_retry_bound() {
    assert_eq!(audio_retry_delay_ms(10), 102_400);
    assert_eq!(audio_retry_delay_ms(57), 100 * (1u64 << 57));
    assert!(audio_may_attempt(3));
    assert!(!audio_may_attempt(4));
}

fn backend_segment() -> meetily::transcription::types::TranscriptSegment {
    meetily::transcription::types::TranscriptSegment {
        text: "raw words".to_string(),
        t0: 1.0f32.to_bits(),
        t1: 3.0f32.to_bits(),
        too_short: false,
    }
}

#[test]
fn processed_text_replaces_the_segment_and_is_announced() {
    let (s, announce) = segment_after_backend(&backend_segment(), Some(Ok("Clean words.".to_string())));
    assert_eq!(s.text, "Clean words.");
    assert_eq!(s.t0, 1.0f32.to_bits());
    assert_eq!(s.t1, 3.0f32.to_bits());
    assert!(announce);
}

#[test]
fn without_processed_text_the_segment_goes_on_unannounced() {
    let (s, announce) = segment_after_backend(&backend_segment(), Some(Err("Network error: x".to_string())));
    assert_eq!(s.text, "raw words");
    assert!(!announce);
    let (s, announce) = segment_after_backend(&backend_segment(), None);
    assert_eq!(s.text, "raw words");
    assert!(!announce);
}
