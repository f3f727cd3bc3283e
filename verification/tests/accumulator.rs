use meetily::transcription::accumulator::TranscriptAccumulator;
use meetily::transcription::sequence::SequenceCounter;
use meetily::transcription::types::{TranscriptSegment, TranscriptUpdate};
use std::time::Instant;

fn segment(text: &str, t0: f32, t1: f32) -> TranscriptSegment {
    TranscriptSegment {
        text: text.to_string(),
        t0: t0.to_bits(),
        t1: t1.to_bits(),
        too_short: (t1 - t0) < 1.0,
    }
}

fn fresh() -> TranscriptAccumulator {
    TranscriptAccumulator::new(SequenceCounter::new())
}

fn expect_update(u: Option<TranscriptUpdate>) -> TranscriptUpdate {
    match u {
        Some(u) => u,
        None => panic!("expected an update"),
    }
}

#[test]
fn complete_sentence_is_handed_out() {
    let mut acc = fresh();
    acc.set_chunk_context(7, 12.5f64.to_bits(), Instant::now());
    let u = expect_update(acc.add_segment(&segment("Hello world.", 100.0, 2100.0)));
    assert_eq!(u.text, "Hello world.");
    assert_eq!(u.source, "Mixed Audio");
    assert!(!u.is_partial);
    assert_eq!(u.sentence_start_time, 100.0f32.to_bits());
    assert_eq!(u.chunk_start_time, 12.5f64.to_bits());
    assert_eq!(acc.current_sentence, "");
}

#[test]
fn segments_join_with_a_space_until_the_sentence_ends() {
    let mut acc = fresh();
    assert!(acc.add_segment(&segment("Hello", 0.0, 1500.0)).is_none());
    assert_eq!(acc.current_sentence, "Hello");
    assert!(acc.add_segment(&segment("there", 1500.0, 3000.0)).is_none());
    assert_eq!(acc.current_sentence, "Hello there");
    let u = expect_update(acc.add_segment(&segment("friend!", 3000.0, 4500.0)));
    assert_eq!(u.text, "Hello there friend!");
    // the sentence started with the first segment
    assert_eq!(u.sentence_start_time, 0.0f32.to_bits());
}

#[test]
fn markers_and_white_space_are_removed() {
    let mut acc = fresh();
    let u = expect_update(acc.add_segment(&segment(
        " [BLANK_AUDIO] Good morning. [AUDIO OUT] ",
        0.0,
        2000.0,
    )));
    assert_eq!(u.text, "Good morning.");
}

#[test]
fn unicode_white_space_is_trimmed() {
    let mut acc = fresh();
    let u = expect_update(acc.add_segment(&segment("\u{3000}\u{a0}Yes?\u{2009}\n", 0.0, 2000.0)));
    assert_eq!(u.text, "Yes?");
}

#[test]
fn marker_only_segment_changes_nothing() {
    let mut acc = fresh();
    assert!(acc.add_segment(&segment("Partial", 0.0, 2000.0)).is_none());
    assert!(acc.add_segment(&segment("[BLANK_AUDIO]", 2000.0, 4000.0)).is_none());
    assert!(acc.add_segment(&segment("   ", 2000.0, 4000.0)).is_none());
    assert_eq!(acc.current_sentence, "Partial");
}

#[test]
fn too_short_segment_is_dropped() {
    let mut acc = fresh();
    assert!(acc.add_segment(&segment("Quick.", 10.0, 10.5)).is_none());
    assert_eq!(acc.current_sentence, "");
}

#[test]
fn repeated_segment_is_dropped() {
    let mut acc = fresh();
    let s = segment("again", 0.0, 2000.0);
    assert!(acc.add_segment(&s).is_none());
    assert!(acc.add_segment(&s).is_none());
    assert_eq!(acc.current_sentence, "again");
}

#[test]
fn same_text_in_another_chunk_is_kept() {
    let mut acc = fresh();
    let s = segment("again", 0.0, 2000.0);
    assert!(acc.add_segment(&s).is_none());
    acc.set_chunk_context(1, 30.0f64.to_bits(), Instant::now());
    assert!(acc.add_segment(&s).is_none());
    assert_eq!(acc.current_sentence, "again again");
}

#[test]
fn every_sentence_ending_is_recognised() {
    for (text, ends) in [
        ("Done.", true),
        ("Really?", true),
        ("Wow!", true),
        ("Well...", true),
        ("He said \"stop.\"", true),
        ("She said 'go.'", true),
        ("and then", false),
        ("a, b", false),
    ] {
        let mut acc = fresh();
        assert_eq!(acc.add_segment(&segment(text, 0.0, 2000.0)).is_some(), ends, "{}", text);
    }
}

#[test]
fn timeout_hands_out_a_partial_sentence() {
    let mut acc = fresh();
    assert!(acc.add_segment(&segment("Waiting for", 0.0, 2000.0)).is_none());
    assert!(acc.check_timeout_after(500_000_000).is_none());
    assert!(acc.check_timeout_after(1_000_000_000).is_none());
    let u = expect_update(acc.check_timeout_after(1_000_000_001));
    assert_eq!(u.text, "Waiting for");
    assert!(u.is_partial);
    assert_eq!(acc.current_sentence, "");
    assert!(acc.check_timeout_after(5_000_000_000).is_none());
}

#[test]
fn fresh_sentence_does_not_time_out_at_once() {
    let mut acc = fresh();
    assert!(acc.check_timeout().is_none());
    assert!(acc.add_segment(&segment("Right now", 0.0, 2000.0)).is_none());
    assert!(acc.check_timeout().is_none());
    assert_eq!(acc.current_sentence, "Right now");
}

#[test]
fn partial_update_takes_the_sentence() {
    let mut acc = fresh();
    assert!(acc.add_segment(&segment("unfinished", 300.0, 2000.0)).is_none());
    let u = acc.create_partial_update();
    assert_eq!(u.text, "unfinished");
    assert!(u.is_partial);
    assert_eq!(u.sentence_start_time, 300.0f32.to_bits());
    assert_eq!(acc.current_sentence, "");
}

#[test]
fn updates_are_numbered_in_order_across_accumulators() {
    let counter = SequenceCounter::new();
    let mut a = TranscriptAccumulator::new(counter.clone());
    let mut b = TranscriptAccumulator::new(counter);
    let first = expect_update(a.add_segment(&segment("One.", 0.0, 2000.0)));
    let second = expect_update(b.add_segment(&segment("Two.", 0.0, 2000.0)));
    let third = expect_update(a.add_segment(&segment("Three.", 2000.0, 4000.0)));
    assert_eq!(first.sequence_id, 0);
    assert_eq!(second.sequence_id, 1);
    assert_eq!(third.sequence_id, 2);
}

#[test]
fn a_new_segment_restarts_the_sentence_timeout() {
    let mut acc = fresh();
    let long_ago = Instant::now() - std::time::Duration::from_secs(5);
    assert!(acc.add_segment_at(&segment("Still talking", 0.0, 2000.0), long_ago).is_none());
    let u = expect_update(acc.check_timeout());
    assert!(u.is_partial);
    assert_eq!(u.text, "Still talking");
    // a dropped segment restarts the timeout too
    assert!(acc.add_segment_at(&segment("go on", 0.0, 2000.0), long_ago).is_none());
    assert!(acc.add_segment(&segment("[BLANK_AUDIO]", 0.0, 2000.0)).is_none());
    assert!(acc.check_timeout().is_none());
    assert_eq!(acc.current_sentence, "go on");
}
