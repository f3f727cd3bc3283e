//! The first-in first-out queue of audio chunks between capture and the
//! transcription workers. Sharing it between threads is left to the caller,
//! who holds it behind a lock.
use super::types::AudioChunk;
use std::collections::VecDeque;
use vstd::prelude::*;

verus! {

/// How many of `len` queued chunks must leave before one more fits under
/// a bound of `max` chunks.
pub open spec fn overflow_count(len: nat, max: nat) -> nat {
    if len >= max {
        (len - max + 1) as nat
    } else {
        0
    }
}

/// The ids of `chunks`, in order.
pub open spec fn chunk_ids(chunks: Seq<AudioChunk>) -> Seq<u64> {
    chunks.map_values(|c: AudioChunk| c.chunk_id)
}

/// `a + b`, held at `u64::MAX`.
pub open spec fn saturating_sum(a: u64, b: nat) -> u64 {
    if a + b > u64::MAX {
        u64::MAX
    } else {
        (a + b) as u64
    }
}

/// What a bounded push had to do to make room.
pub struct Overflow {
    /// Ids of the chunks dropped, oldest first.
    pub dropped: Vec<u64>,
    /// The first chunk ever dropped from this queue, when this push
    /// dropped it: the moment to warn that transcription is too slow.
    pub first_drop: Option<u64>,
}

pub struct AudioQueue {
    queue: VecDeque<AudioChunk>,
    dropped_total: u64,
}

impl View for AudioQueue {
    type V = Seq<AudioChunk>;

    closed spec fn view(&self) -> Seq<AudioChunk> {
        self.queue@
    }
}

impl AudioQueue {
    /// How many chunks bounded pushes have dropped, held at `u64::MAX`.
    pub closed spec fn dropped_count(&self) -> u64 {
        self.dropped_total
    }

    pub fn new() -> (q: Self)
        ensures
            q@ == Seq::<AudioChunk>::empty(),
            q.dropped_count() == 0,
    {
        AudioQueue { queue: VecDeque::new(), dropped_total: 0 }
    }

    /// Add a chunk at the back. This never fails.
    pub fn push(&mut self, chunk: AudioChunk) -> (r: Result<(), String>)
        ensures
            r is Ok,
            final(self)@ == old(self)@.push(chunk),
            final(self).dropped_count() == old(self).dropped_count(),
    {
        self.queue.push_back(chunk);
        Ok(())
    }

    /// Add a chunk at the back after dropping the oldest chunks until fewer
    /// than `max` remain, so that the queue never holds more than `max`.
    pub fn push_bounded(&mut self, chunk: AudioChunk, max: usize) -> (overflow: Overflow)
        requires
            max > 0,
        ensures
            ({
                let d = overflow_count(old(self)@.len(), max as nat);
                &&& final(self)@ == old(self)@.skip(d as int).push(chunk)
                &&& overflow.dropped@ == chunk_ids(old(self)@.take(d as int))
                &&& final(self).dropped_count() == saturating_sum(old(self).dropped_count(), d)
                &&& overflow.first_drop == if old(self).dropped_count() == 0 && d > 0 {
                    Some(old(self)@[0].chunk_id)
                } else {
                    None::<u64>
                }
            }),
            final(self)@.len() <= max,
    {
        let ghost start = self.queue@;
        let ghost d = overflow_count(start.len(), max as nat);
        let before: u64 = self.dropped_total;
        let mut dropped: Vec<u64> = Vec::new();
        while self.queue.len() >= max
            invariant
                max > 0,
                d == overflow_count(start.len(), max as nat),
                dropped@.len() <= d,
                self.queue@ == start.skip(dropped@.len() as int),
                dropped@ == chunk_ids(start.take(dropped@.len() as int)),
                self.dropped_total == saturating_sum(before, dropped@.len()),
            ensures
                self.queue@.len() < max,
                dropped@.len() <= d,
                self.queue@ == start.skip(dropped@.len() as int),
                dropped@ == chunk_ids(start.take(dropped@.len() as int)),
                self.dropped_total == saturating_sum(before, dropped@.len()),
            decreases self.queue@.len(),
        {
            let ghost k: int = dropped@.len() as int;
            match self.queue.pop_front() {
                Some(c) => {
                    assert(start.skip(k).drop_first() =~= start.skip(k + 1int));
                    assert(chunk_ids(start.take(k + 1int)) =~= chunk_ids(start.take(k)).push(
                        c.chunk_id,
                    ));
                    dropped.push(c.chunk_id);
                    if self.dropped_total < u64::MAX {
                        self.dropped_total = self.dropped_total + 1;
                    }
                },
                None => {
                    break ;
                },
            }
        }
        assert(dropped@.len() == d);
        self.queue.push_back(chunk);
        let first_drop = if before == 0 && dropped.len() > 0 {
            Some(dropped[0])
        } else {
            None
        };
        Overflow { dropped, first_drop }
    }

    /// Take the chunk at the front.
    pub fn pop(&mut self) -> (chunk: Option<AudioChunk>)
        ensures
            old(self)@.len() > 0 ==> chunk == Some(old(self)@[0]) && final(self)@
                == old(self)@.drop_first(),
            old(self)@.len() == 0 ==> chunk is None && final(self)@ == old(self)@,
            final(self).dropped_count() == old(self).dropped_count(),
    {
        let r = self.queue.pop_front();
        proof {
            if old(self)@.len() > 0 {
                assert(self.queue@ =~= old(self)@.drop_first());
            }
        }
        r
    }

    pub fn len(&self) -> (n: usize)
        ensures
            n == self@.len(),
    {
        self.queue.len()
    }

    pub fn is_empty(&self) -> (r: bool)
        ensures
            r == (self@.len() == 0),
    {
        self.len() == 0
    }

    /// Drop every queued chunk.
    pub fn clear(&mut self)
        ensures
            final(self)@ == Seq::<AudioChunk>::empty(),
            final(self).dropped_count() == old(self).dropped_count(),
    {
        self.queue.clear();
    }
}

} // verus!
