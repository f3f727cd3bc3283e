use meetily::transcription::accumulator::TranscriptAccumulator;
use meetily::transcription::sequence::SequenceCounter;
use meetily::transcription::types::{TranscriptResponse, TranscriptSegment};
use meetily::transcription::worker::{
    flush_pending, is_critical_error, process_response, may_attempt, retries_exhausted_message, retry_delay_ms,
    should_exit, should_exit_after, update_state, update_state_at, WorkerState,
};
use std::time::Instant;

#[test]
fn running_worker_enters_grace_period_when_recording_stops() {
    let mut s = WorkerState::Running;
    update_state(&mut s, true);
    assert!(matches!(s, WorkerState::Running));
    update_state(&mut s, false);
    assert!(matches!(s, WorkerState::GracePeriod { .. }));
    let mut t = WorkerState::Running;
    let at = Instant::now();
    update_state_at(&mut t, false, at);
    assert!(matches!(t, WorkerState::GracePeriod { started_at } if started_at == at));
    let mut stopping = WorkerState::Stopping;
    update_state(&mut stopping, false);
    assert!(matches!(stopping, WorkerState::Stopping));
}

#[test]
fn grace_period_ends_only_on_an_empty_queue() {
    let mut s = WorkerState::Running;
    assert!(!should_exit_after(&mut s, u128::MAX, true, Instant::now()));
    let mut s = WorkerState::GracePeriod { started_at: Instant::now() };
    assert!(!should_exit_after(&mut s, 1_999_999_999, true, Instant::now()));
    let restart = Instant::now();
    assert!(!should_exit_after(&mut s, 2_000_000_000, false, restart));
    assert!(matches!(s, WorkerState::GracePeriod { started_at } if started_at == restart));
    assert!(should_exit_after(&mut s, 2_000_000_000, true, Instant::now()));
    assert!(matches!(s, WorkerState::Stopping));
    assert!(should_exit_after(&mut s, 0, false, Instant::now()));
    assert!(should_exit(&mut s, false));
}

#[test]
fn fresh_grace_period_does_not_end_at_once() {
    let mut s = WorkerState::GracePeriod { started_at: Instant::now() };
    assert!(!should_exit(&mut s, true));
}

#[test]
fn unreachable_recogniser_is_critical() {
    assert!(is_critical_error("Failed after 3 retries. Last error: Failed to connect"));
    assert!(is_critical_error("tcp connect error: Connection refused"));
    assert!(!is_critical_error("Server error: 500 Internal Server Error"));
    assert!(!is_critical_error(""));
}

#[test]
fn retries_wait_longer_each_time() {
    assert!(may_attempt(0));
    assert!(may_attempt(3));
    assert!(!may_attempt(4));
    assert_eq!(retry_delay_ms(1), 500);
    assert_eq!(retry_delay_ms(3), 1500);
    assert_eq!(retry_delay_ms(10), 5000);
    assert_eq!(
        retries_exhausted_message("Server error: 503"),
        "Failed after 3 retries. Last error: Server error: 503"
    );
}

#[test]
fn flushing_hands_out_the_pending_sentence_once() {
    let mut acc = TranscriptAccumulator::new(SequenceCounter::new());
    assert!(flush_pending(&mut acc).is_empty());
    let seg = TranscriptSegment {
        text: "not finished".to_string(),
        t0: 0.0f32.to_bits(),
        t1: 2000.0f32.to_bits(),
        too_short: false,
    };
    assert!(acc.add_segment(&seg).is_none());
    let updates = flush_pending(&mut acc);
    assert_eq!(updates.len(), 1);
    assert_eq!(updates[0].text, "not finished");
    assert!(updates[0].is_partial);
    assert!(flush_pending(&mut acc).is_empty());
}

fn seg(text: &str, t0: f32, t1: f32) -> TranscriptSegment {
    TranscriptSegment { text: text.to_string(), t0: t0.to_bits(), t1: t1.to_bits(), too_short: (t1 - t0) < 1.0 }
}

#[test]
fn response_segments_are_added_in_order() {
    let mut acc = TranscriptAccumulator::new(SequenceCounter::new());
    let response = TranscriptResponse {
        segments: vec![
            seg("First part", 0.0, 1500.0),
            seg("[BLANK_AUDIO]", 1500.0, 2500.0),
            seg("ends here.", 2500.0, 4000.0),
            seg("Second", 4000.0, 4100.5),
            seg("Second", 4000.0, 4100.5),
            seg("one?", 4200.0, 5000.0),
            seg("tail", 5000.0, 5000.5),
            seg("left over", 5000.0, 6500.0),
        ],
        buffer_size_ms: 30000,
    };
    let updates = process_response(&mut acc, response);
    let texts: Vec<&str> = updates.iter().map(|u| u.text.as_str()).collect();
    assert_eq!(texts, vec!["First part ends here.", "Second one?"]);
    assert!(updates.iter().all(|u| !u.is_partial));
    assert_eq!(acc.current_sentence, "left over");
}
