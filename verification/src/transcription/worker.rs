//! The decisions of a transcription worker: when to leave its loop once
//! recording stops, which failures are fatal, and how to retry a request.
use super::accumulator::{describes, handed_out, TranscriptAccumulator};
use super::types::{TranscriptResponse, TranscriptUpdate};
use crate::text::{chars_of, contains, contains_seq};
use std::time::Instant;
use vstd::prelude::*;

verus! {

/// After recording stops a worker keeps draining the queue for this long.
pub const GRACE_PERIOD_MS: u64 = 2000;

/// How long an idle worker sleeps before looking at the queue again.
pub const WORKER_POLL_MS: u64 = 50;

/// Retries after the first attempt to reach the recogniser.
pub const MAX_RETRIES: u32 = 3;

pub enum WorkerState {
    Running,
    GracePeriod { started_at: Instant },
    Stopping,
}

/// Move a running worker into its grace period once recording has stopped.
pub fn update_state(state: &mut WorkerState, is_running: bool)
    ensures
        !is_running && (*old(state)) is Running ==> (*final(state)) is GracePeriod,
        !(!is_running && (*old(state)) is Running) ==> *final(state) == *old(state),
{
    let now = Instant::now();
    update_state_at(state, is_running, now);
}

/// `update_state` with the clock read as `now`: the grace period starts
/// at `now`.
pub fn update_state_at(state: &mut WorkerState, is_running: bool, now: Instant)
    ensures
        !is_running && (*old(state)) is Running ==> *final(state) == (WorkerState::GracePeriod {
            started_at: now,
        }),
        !(!is_running && (*old(state)) is Running) ==> *final(state) == *old(state),
{
    if !is_running {
        match state {
            WorkerState::Running => {
                *state = WorkerState::GracePeriod { started_at: now };
            },
            _ => {},
        }
    }
}

/// Whether the worker should leave its loop; `queue_empty` tells whether
/// chunks are still waiting.
pub fn should_exit(state: &mut WorkerState, queue_empty: bool) -> (exit: bool)
    ensures
        (*old(state)) is Running ==> !exit && *final(state) == *old(state),
        (*old(state)) is Stopping ==> exit && *final(state) == *old(state),
        (*old(state)) is GracePeriod ==> {
            ||| exit && queue_empty && (*final(state)) is Stopping
            ||| !exit && (*final(state)) is GracePeriod
        },
{
    let elapsed_nanos = match state {
        WorkerState::GracePeriod { started_at } => started_at.elapsed().as_nanos(),
        _ => 0,
    };
    let now = Instant::now();
    should_exit_after(state, elapsed_nanos, queue_empty, now)
}

/// The decision of `should_exit`, given how many nanoseconds have passed
/// since the grace period started and the clock read as `now`, when a
/// grace period that starts over starts.
pub fn should_exit_after(
    state: &mut WorkerState,
    elapsed_nanos: u128,
    queue_empty: bool,
    now: Instant,
) -> (exit: bool)
    ensures
        match *old(state) {
            WorkerState::Running => !exit && *final(state) == *old(state),
            WorkerState::Stopping => exit && *final(state) == *old(state),
            WorkerState::GracePeriod { .. } => if elapsed_nanos < GRACE_PERIOD_MS * 1_000_000 {
                !exit && *final(state) == *old(state)
            } else if queue_empty {
                exit && (*final(state)) is Stopping
            } else {
                // the grace period starts over
                !exit && *final(state) == (WorkerState::GracePeriod { started_at: now })
            },
        },
{
    let grace_nanos: u128 = (GRACE_PERIOD_MS as u128) * 1_000_000;
    match state {
        WorkerState::Running => false,
        WorkerState::GracePeriod { .. } => {
            if elapsed_nanos >= grace_nanos {
                if queue_empty {
                    *state = WorkerState::Stopping;
                    true
                } else {
                    *state = WorkerState::GracePeriod { started_at: now };
                    false
                }
            } else {
                false
            }
        },
        WorkerState::Stopping => true,
    }
}

/// A failure that means the recogniser cannot be reached at all.
pub open spec fn is_connection_failure(message: Seq<char>) -> bool {
    contains_seq(message, "Failed to connect"@) || contains_seq(message, "Connection refused"@)
}

/// Whether a transcription failure is fatal for the worker: the
/// recogniser cannot be reached.
pub fn is_critical_error(message: &str) -> (critical: bool)
    ensures
        critical == is_connection_failure(message@),
{
    let text = chars_of(message);
    let failed = chars_of("Failed to connect");
    let refused = chars_of("Connection refused");
    contains(text.as_slice(), failed.as_slice()) || contains(text.as_slice(), refused.as_slice())
}

/// Whether another request may be made after `retry_count` retries.
pub fn may_attempt(retry_count: u32) -> (r: bool)
    ensures
        r == (retry_count <= MAX_RETRIES),
{
    retry_count <= MAX_RETRIES
}

/// How long to wait before retry number `retry_count`: half a second more
/// for each retry.
pub fn retry_delay_ms(retry_count: u32) -> (ms: u64)
    ensures
        ms == 500 * retry_count,
{
    500 * (retry_count as u64)
}

/// The error reported when every attempt failed.
pub fn retries_exhausted_message(last_error: &str) -> (m: String)
    ensures
        m@ == "Failed after 3 retries. Last error: "@ + last_error@,
{
    String::from_str("Failed after 3 retries. Last error: ").concat(last_error)
}

/// Feed the recogniser's segments for one chunk to the accumulator, in
/// order, and collect the sentences they finish.
pub fn process_response(acc: &mut TranscriptAccumulator, response: TranscriptResponse) -> (updates:
    Vec<TranscriptUpdate>)
    ensures
        TranscriptAccumulator::adds_segments(*old(acc), response.segments@, updates@, *final(acc)),
{
    let segments = response.segments;
    let mut updates: Vec<TranscriptUpdate> = Vec::new();
    let ghost mut outs: Seq<Option<TranscriptUpdate>> = Seq::empty();
    let ghost mut states: Seq<TranscriptAccumulator> = seq![*acc];
    let mut i: usize = 0;
    while i < segments.len()
        invariant
            i <= segments@.len(),
            TranscriptAccumulator::runs_through(segments@.take(i as int), outs, states),
            states[0] == *old(acc),
            states.last() == *acc,
            updates@ == handed_out(outs),
        decreases segments@.len() - i,
    {
        let update = acc.add_segment(&segments[i]);
        match update {
            Some(u) => {
                updates.push(u);
            },
            None => {},
        }
        proof {
            let prev_states = states;
            let prev_outs = outs;
            outs = outs.push(update);
            states = states.push(*acc);
            assert(outs.drop_last() =~= prev_outs);
            let taken = segments@.take(i + 1);
            assert forall|j: int| 0 <= j < taken.len() implies #[trigger] TranscriptAccumulator::adds_segment(
                &states[j],
                &taken[j],
                outs[j],
                &states[j + 1],
            ) by {
                if j < i {
                    assert(taken[j] == segments@.take(i as int)[j]);
                    assert(states[j] == prev_states[j]);
                    assert(states[j + 1] == prev_states[j + 1]);
                    assert(outs[j] == prev_outs[j]);
                } else {
                    assert(states[j] == prev_states.last());
                }
            }
        }
        i = i + 1;
    }
    assert(segments@.take(segments@.len() as int) =~= segments@);
    assert(TranscriptAccumulator::runs_through(segments@, outs, states));
    updates
}

/// What a stopping worker still has to hand out: the pending sentence,
/// if any, marked partial, whether or not its time is up.
pub fn flush_pending(acc: &mut TranscriptAccumulator) -> (updates: Vec<TranscriptUpdate>)
    ensures
        old(acc).sentence().len() == 0 ==> updates@.len() == 0 && final(acc).same_sentence_state(
            old(acc),
        ),
        old(acc).sentence().len() > 0 ==> {
            &&& updates@.len() == 1
            &&& describes(
                updates@[0],
                old(acc).sentence(),
                old(acc).sentence_start(),
                old(acc).chunk_start(),
                true,
            )
            &&& final(acc).sentence() == Seq::<char>::empty()
            &&& final(acc).sentence_start() == old(acc).sentence_start()
            &&& final(acc).last_hash() == old(acc).last_hash()
            &&& final(acc).same_context(old(acc))
        },
{
    let mut updates: Vec<TranscriptUpdate> = Vec::new();
    if let Some(update) = acc.check_timeout() {
        updates.push(update);
    }
    if acc.has_pending_sentence() {
        let update = acc.create_partial_update();
        updates.push(update);
    }
    updates
}

/// A failure is critical exactly when its message holds the words
/// "Failed to connect" or "Connection refused"; any other message, such as
/// a server error after the retries, is not.
pub proof fn lemma_critical_means_unreachable(m: Seq<char>)
    ensures
        is_connection_failure(m) <==> ((exists|i: int|
            #![trigger m.subrange(i, i + 17)]
            0 <= i && i + 17 <= m.len() && m.subrange(i, i + 17) == seq![
                'F', 'a', 'i', 'l', 'e', 'd', ' ', 't', 'o', ' ', 'c', 'o', 'n', 'n', 'e', 'c', 't',
            ]) || (exists|i: int|
            #![trigger m.subrange(i, i + 18)]
            0 <= i && i + 18 <= m.len() && m.subrange(i, i + 18) == seq![
                'C', 'o', 'n', 'n', 'e', 'c', 't', 'i', 'o', 'n', ' ', 'r', 'e', 'f', 'u', 's', 'e', 'd',
            ])),
{
    reveal_strlit("Failed to connect");
    reveal_strlit("Connection refused");
    let failed = seq![
        'F', 'a', 'i', 'l', 'e', 'd', ' ', 't', 'o', ' ', 'c', 'o', 'n', 'n', 'e', 'c', 't',
    ];
    let refused = seq![
        'C', 'o', 'n', 'n', 'e', 'c', 't', 'i', 'o', 'n', ' ', 'r', 'e', 'f', 'u', 's', 'e', 'd',
    ];
    assert("Failed to connect"@ =~= failed);
    assert("Connection refused"@ =~= refused);
    assert(failed.len() == 17);
    assert(refused.len() == 18);
    if contains_seq(m, failed) {
        let i = choose|i: int| crate::text::occurs_at(m, failed, i);
        assert(0 <= i && i + 17 <= m.len() && m.subrange(i, i + 17) == failed);
    }
    if contains_seq(m, refused) {
        let i = choose|i: int| crate::text::occurs_at(m, refused, i);
        assert(0 <= i && i + 18 <= m.len() && m.subrange(i, i + 18) == refused);
    }
    if exists|i: int|
        #![trigger m.subrange(i, i + 17)]
        0 <= i && i + 17 <= m.len() && m.subrange(i, i + 17) == failed {
        let i = choose|i: int|
            #![trigger m.subrange(i, i + 17)]
            0 <= i && i + 17 <= m.len() && m.subrange(i, i + 17) == failed;
        assert(crate::text::occurs_at(m, failed, i));
    }
    if exists|i: int|
        #![trigger m.subrange(i, i + 18)]
        0 <= i && i + 18 <= m.len() && m.subrange(i, i + 18) == refused {
        let i = choose|i: int|
            #![trigger m.subrange(i, i + 18)]
            0 <= i && i + 18 <= m.len() && m.subrange(i, i + 18) == refused;
        assert(crate::text::occurs_at(m, refused, i));
    }
}

} // verus!
