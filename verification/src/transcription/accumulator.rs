//! Gathers recognised segments into sentences: cleans the text, drops
//! empty, too short and repeated segments, and hands out a sentence when
//! it ends or when no segment has come for a while.
use super::sequence::SequenceCounter;
use super::types::{TranscriptSegment, TranscriptUpdate};
use crate::text::{
    append_chars, chars_of, ends_with, ends_with_seq, remove_all, remove_all_exec,
    string_from_chars, trim, trim_seq, lemma_trim_idempotent,
};
use std::collections::hash_map::DefaultHasher;
use std::hash::Hasher;
use std::time::Instant;
use vstd::bytes::{spec_u32_to_le_bytes, spec_u64_to_le_bytes, u32_to_le_bytes, u64_to_le_bytes};
use vstd::prelude::*;
use vstd::std_specs::hash::DefaultHasherAdditionalSpecFns;
use vstd::utf8::encode_utf8;

verus! {

/// A sentence without a new segment for longer than this is handed out
/// as it stands.
pub const SENTENCE_TIMEOUT_MS: u64 = 1000;

/// The segment text with the recogniser's `[BLANK_AUDIO]` and
/// `[AUDIO OUT]` markers removed and the surrounding white space trimmed.
pub open spec fn clean_segment_text(raw: Seq<char>) -> Seq<char> {
    trim_seq(remove_all(remove_all(raw, "[BLANK_AUDIO]"@), "[AUDIO OUT]"@))
}

/// Whether cleaned text ends a sentence.
pub open spec fn ends_sentence(t: Seq<char>) -> bool {
    ||| ends_with_seq(t, seq!['.'])
    ||| ends_with_seq(t, seq!['?'])
    ||| ends_with_seq(t, seq!['!'])
    ||| ends_with_seq(t, seq!['.', '.', '.'])
    ||| ends_with_seq(t, seq!['.', '"'])
    ||| ends_with_seq(t, seq!['.', '\''])
}

/// The sentence after `text` is added: a space separates them unless the
/// sentence is empty or already ends in one.
pub open spec fn extend_sentence(sentence: Seq<char>, text: Seq<char>) -> Seq<char> {
    if sentence.len() > 0 && sentence.last() != ' ' {
        sentence + seq![' '] + text
    } else {
        sentence + text
    }
}

/// The byte strings fed to the hasher that recognises a repeated segment:
/// the raw text as `str::hash` writes it, then both times and the chunk id.
pub open spec fn segment_hash_writes(text: Seq<char>, t0: u32, t1: u32, chunk_id: u64) -> Seq<
    Seq<u8>,
> {
    seq![
        encode_utf8(text),
        seq![0xffu8],
        spec_u32_to_le_bytes(t0),
        spec_u32_to_le_bytes(t1),
        spec_u64_to_le_bytes(chunk_id),
    ]
}

/// The hash that identifies a segment within a chunk.
pub open spec fn segment_hash(text: Seq<char>, t0: u32, t1: u32, chunk_id: u64) -> u64 {
    DefaultHasher::spec_finish(segment_hash_writes(text, t0, t1, chunk_id))
}

/// The updates among `outs`, in order.
pub open spec fn handed_out(outs: Seq<Option<TranscriptUpdate>>) -> Seq<TranscriptUpdate>
    decreases outs.len(),
{
    if outs.len() == 0 {
        Seq::empty()
    } else {
        match outs.last() {
            Some(u) => handed_out(outs.drop_last()).push(u),
            None => handed_out(outs.drop_last()),
        }
    }
}

/// `u` hands out `sentence`, trimmed, with the given start times.
pub open spec fn describes(
    u: TranscriptUpdate,
    sentence: Seq<char>,
    sentence_start: u32,
    chunk_start: u64,
    partial: bool,
) -> bool {
    &&& u.text@ == trim_seq(sentence)
    &&& u.sentence_start_time == sentence_start
    &&& u.source@ == "Mixed Audio"@
    &&& u.chunk_start_time == chunk_start
    &&& u.is_partial == partial
}

pub struct TranscriptAccumulator {
    pub current_sentence: String,
    sentence_start_time: u32,
    last_update_time: Instant,
    last_segment_hash: u64,
    current_chunk_id: u64,
    current_chunk_start_time: u64,
    recording_start_time: Option<Instant>,
    sequence: SequenceCounter,
}

impl TranscriptAccumulator {
    /// The sentence gathered so far.
    pub closed spec fn sentence(&self) -> Seq<char> {
        self.current_sentence@
    }

    /// Start of the current sentence within its chunk (`f32` bits).
    pub closed spec fn sentence_start(&self) -> u32 {
        self.sentence_start_time
    }

    /// Hash of the last segment that was kept.
    pub closed spec fn last_hash(&self) -> u64 {
        self.last_segment_hash
    }

    pub closed spec fn chunk_id(&self) -> u64 {
        self.current_chunk_id
    }

    /// Start of the current chunk (`f64` bits).
    pub closed spec fn chunk_start(&self) -> u64 {
        self.current_chunk_start_time
    }

    pub closed spec fn recording_start(&self) -> Option<Instant> {
        self.recording_start_time
    }

    /// When the last segment came; a pending sentence's timeout runs from
    /// here.
    pub closed spec fn last_update(&self) -> Instant {
        self.last_update_time
    }

    /// The counter that numbers the updates handed out.
    pub closed spec fn sequence_counter(&self) -> SequenceCounter {
        self.sequence
    }

    /// The chunk context, and the counter that numbers updates, are the
    /// same in `self` and `other`.
    pub open spec fn same_context(&self, other: &Self) -> bool {
        &&& self.chunk_id() == other.chunk_id()
        &&& self.chunk_start() == other.chunk_start()
        &&& self.recording_start() == other.recording_start()
        &&& self.sequence_counter() == other.sequence_counter()
    }

    /// The sentence and everything the next decisions read are the same
    /// in `self` and `other`.
    pub open spec fn same_sentence_state(&self, other: &Self) -> bool {
        &&& self.sentence() == other.sentence()
        &&& self.sentence_start() == other.sentence_start()
        &&& self.last_hash() == other.last_hash()
        &&& self.same_context(other)
    }

    /// An empty accumulator whose updates are numbered by `sequence`.
    pub fn new(sequence: SequenceCounter) -> (acc: Self)
        ensures
            acc.sentence() == Seq::<char>::empty(),
            acc.sentence_start() == 0,
            acc.last_hash() == 0,
            acc.chunk_id() == 0,
            acc.chunk_start() == 0,
            acc.recording_start() is None,
            acc.sequence_counter() == sequence,
    {
        TranscriptAccumulator {
            current_sentence: String::new(),
            sentence_start_time: 0,
            last_update_time: Instant::now(),
            last_segment_hash: 0,
            current_chunk_id: 0,
            current_chunk_start_time: 0,
            recording_start_time: None,
            sequence,
        }
    }

    /// Whether a sentence is being gathered.
    pub fn has_pending_sentence(&self) -> (r: bool)
        ensures
            r == (self.sentence().len() > 0),
    {
        !self.current_sentence.as_str().is_empty()
    }

    /// Record which chunk the following segments belong to.
    pub fn set_chunk_context(
        &mut self,
        chunk_id: u64,
        chunk_start_time: u64,
        recording_start_time: Instant,
    )
        ensures
            final(self).chunk_id() == chunk_id,
            final(self).chunk_start() == chunk_start_time,
            final(self).recording_start() == Some(recording_start_time),
            final(self).sentence() == old(self).sentence(),
            final(self).sentence_start() == old(self).sentence_start(),
            final(self).last_hash() == old(self).last_hash(),
            final(self).sequence_counter() == old(self).sequence_counter(),
            final(self).last_update() == old(self).last_update(),
    {
        self.current_chunk_id = chunk_id;
        self.current_chunk_start_time = chunk_start_time;
        self.recording_start_time = Some(recording_start_time);
    }

    /// Whether `segment` is kept when added to `pre`: its cleaned text is
    /// not empty, it is long enough, and it is not the segment kept last.
    pub open spec fn keeps(pre: &Self, segment: &TranscriptSegment) -> bool {
        &&& clean_segment_text(segment.text@).len() > 0
        &&& !segment.too_short
        &&& segment_hash(segment.text@, segment.t0, segment.t1, pre.chunk_id()) != pre.last_hash()
    }

    /// Adding `segment` to `pre` gives `post` and `update`: a segment that is
    /// not kept changes nothing; a kept one becomes the last kept segment
    /// and is appended to the sentence, which is handed out and emptied
    /// when the segment's text ends it.
    pub open spec fn adds_segment(
        pre: &Self,
        segment: &TranscriptSegment,
        update: Option<TranscriptUpdate>,
        post: &Self,
    ) -> bool {
        let clean = clean_segment_text(segment.text@);
        let joined = extend_sentence(pre.sentence(), clean);
        let start = if pre.sentence().len() == 0 {
            segment.t0
        } else {
            pre.sentence_start()
        };
        if !Self::keeps(pre, segment) {
            &&& update is None
            &&& post.same_sentence_state(pre)
        } else {
            &&& post.last_hash() == segment_hash(
                segment.text@,
                segment.t0,
                segment.t1,
                pre.chunk_id(),
            )
            &&& post.sentence_start() == start
            &&& post.same_context(pre)
            &&& if ends_sentence(clean) {
                &&& post.sentence() == Seq::<char>::empty()
                &&& update matches Some(u) && describes(u, joined, start, pre.chunk_start(), false)
            } else {
                &&& post.sentence() == joined
                &&& update is None
            }
        }
    }

    /// `states[i]` becomes `states[i + 1]` when `segments[i]` is added,
    /// handing out `outs[i]`.
    pub open spec fn runs_through(
        segments: Seq<TranscriptSegment>,
        outs: Seq<Option<TranscriptUpdate>>,
        states: Seq<Self>,
    ) -> bool {
        &&& outs.len() == segments.len()
        &&& states.len() == segments.len() + 1
        &&& forall|i: int|
            0 <= i < segments.len() ==> #[trigger] Self::adds_segment(
                &states[i],
                &segments[i],
                outs[i],
                &states[i + 1],
            )
    }

    /// Adding `segments` one after another to `pre` gives `post`, and the
    /// sentences handed out on the way are `updates`, in order.
    pub open spec fn adds_segments(
        pre: Self,
        segments: Seq<TranscriptSegment>,
        updates: Seq<TranscriptUpdate>,
        post: Self,
    ) -> bool {
        exists|outs: Seq<Option<TranscriptUpdate>>, states: Seq<Self>|
            {
                &&& #[trigger] Self::runs_through(segments, outs, states)
                &&& states[0] == pre
                &&& states.last() == post
                &&& updates == handed_out(outs)
            }
    }

    /// Add a recognised segment. Returns the finished sentence when the
    /// segment's text ends one. The pause before a pending sentence is
    /// handed out is measured from now.
    pub fn add_segment(&mut self, segment: &TranscriptSegment) -> (update: Option<TranscriptUpdate>)
        ensures
            Self::adds_segment(old(self), segment, update, final(self)),
    {
        let now = Instant::now();
        self.add_segment_at(segment, now)
    }

    /// `add_segment` with the clock read as `now`: whether or not the
    /// segment is kept, the sentence timeout restarts at `now`.
    pub fn add_segment_at(&mut self, segment: &TranscriptSegment, now: Instant) -> (update: Option<
        TranscriptUpdate,
    >)
        ensures
            Self::adds_segment(old(self), segment, update, final(self)),
            final(self).last_update() == now,
    {
        self.last_update_time = now;
        let raw = chars_of(segment.text.as_str());
        let blank = chars_of("[BLANK_AUDIO]");
        let audio_out = chars_of("[AUDIO OUT]");
        proof {
            reveal_strlit("[BLANK_AUDIO]");
            reveal_strlit("[AUDIO OUT]");
        }
        let without_blank = remove_all_exec(raw.as_slice(), blank.as_slice());
        let without_markers = remove_all_exec(without_blank.as_slice(), audio_out.as_slice());
        let clean = trim(without_markers.as_slice());
        assert(clean@ == clean_segment_text(segment.text@));
        if clean.len() == 0 || segment.too_short {
            return None;
        }
        let segment_hash = Self::hash_segment(segment, self.current_chunk_id);
        if segment_hash == self.last_segment_hash {
            return None;
        }
        self.last_segment_hash = segment_hash;
        let mut sentence = chars_of(self.current_sentence.as_str());
        if sentence.len() == 0 {
            self.sentence_start_time = segment.t0;
        }
        if sentence.len() > 0 && sentence[sentence.len() - 1] != ' ' {
            sentence.push(' ');
        }
        append_chars(&mut sentence, clean.as_slice());
        assert(sentence@ =~= extend_sentence(old(self).sentence(), clean@));
        self.current_sentence = string_from_chars(sentence.as_slice());
        assert(self.sentence() == extend_sentence(old(self).sentence(), clean@));
        if Self::has_sentence_ending(clean.as_slice()) {
            self.create_complete_update()
        } else {
            None
        }
    }

    fn hash_segment(segment: &TranscriptSegment, chunk_id: u64) -> (h: u64)
        ensures
            h == segment_hash(segment.text@, segment.t0, segment.t1, chunk_id),
    {
        let mut hasher = DefaultHasher::new();
        let text_bytes = segment.text.as_str().as_bytes();
        assert(text_bytes@ == encode_utf8(segment.text@));
        hasher.write(text_bytes);
        let terminator: Vec<u8> = vec![0xffu8];
        assert(terminator@ =~= seq![0xffu8]);
        hasher.write(terminator.as_slice());
        let t0 = u32_to_le_bytes(segment.t0);
        hasher.write(t0.as_slice());
        let t1 = u32_to_le_bytes(segment.t1);
        hasher.write(t1.as_slice());
        let chunk = u64_to_le_bytes(chunk_id);
        hasher.write(chunk.as_slice());
        assert(hasher@ =~= segment_hash_writes(segment.text@, segment.t0, segment.t1, chunk_id));
        hasher.finish()
    }

    fn has_sentence_ending(t: &[char]) -> (r: bool)
        ensures
            r == ends_sentence(t@),
    {
        let dot: Vec<char> = vec!['.'];
        let question: Vec<char> = vec!['?'];
        let bang: Vec<char> = vec!['!'];
        let ellipsis: Vec<char> = vec!['.', '.', '.'];
        let dot_double: Vec<char> = vec!['.', '"'];
        let dot_single: Vec<char> = vec!['.', '\''];
        assert(dot@ =~= seq!['.']);
        assert(question@ =~= seq!['?']);
        assert(bang@ =~= seq!['!']);
        assert(ellipsis@ =~= seq!['.', '.', '.']);
        assert(dot_double@ =~= seq!['.', '"']);
        assert(dot_single@ =~= seq!['.', '\'']);
        ends_with(t, dot.as_slice()) || ends_with(t, question.as_slice()) || ends_with(
            t,
            bang.as_slice(),
        ) || ends_with(t, ellipsis.as_slice()) || ends_with(t, dot_double.as_slice())
            || ends_with(t, dot_single.as_slice())
    }

    /// Hand out the sentence when one is pending and the last segment came
    /// more than `SENTENCE_TIMEOUT_MS` ago.
    pub fn check_timeout(&mut self) -> (update: Option<TranscriptUpdate>)
        ensures
            old(self).sentence().len() == 0 ==> update is None
                && final(self).same_sentence_state(old(self)),
            update is None ==> final(self).same_sentence_state(old(self)),
            update matches Some(u) ==> {
                &&& describes(
                    u,
                    old(self).sentence(),
                    old(self).sentence_start(),
                    old(self).chunk_start(),
                    true,
                )
                &&& final(self).sentence() == Seq::<char>::empty()
                &&& final(self).sentence_start() == old(self).sentence_start()
                &&& final(self).last_hash() == old(self).last_hash()
                &&& final(self).same_context(old(self))
            },
    {
        if self.current_sentence.as_str().is_empty() {
            return None;
        }
        let elapsed = self.last_update_time.elapsed();
        let elapsed_nanos = elapsed.as_nanos();
        self.check_timeout_after(elapsed_nanos)
    }

    /// The decision of `check_timeout`, given how many nanoseconds have
    /// passed since the last segment.
    pub fn check_timeout_after(&mut self, elapsed_nanos: u128) -> (update: Option<TranscriptUpdate>)
        ensures
            if old(self).sentence().len() > 0 && elapsed_nanos > SENTENCE_TIMEOUT_MS
                * 1_000_000 {
                &&& update matches Some(u) && describes(
                    u,
                    old(self).sentence(),
                    old(self).sentence_start(),
                    old(self).chunk_start(),
                    true,
                )
                &&& final(self).sentence() == Seq::<char>::empty()
                &&& final(self).sentence_start() == old(self).sentence_start()
                &&& final(self).last_hash() == old(self).last_hash()
                &&& final(self).same_context(old(self))
            } else {
                &&& update is None
                &&& final(self).same_sentence_state(old(self))
            },
            final(self).last_update() == old(self).last_update(),
    {
        let timeout_nanos: u128 = (SENTENCE_TIMEOUT_MS as u128) * 1_000_000;
        if !self.current_sentence.as_str().is_empty() && elapsed_nanos > timeout_nanos {
            Some(self.create_partial_update())
        } else {
            None
        }
    }

    /// Hand out the pending sentence, marked partial, and start a new one.
    pub fn create_partial_update(&mut self) -> (update: TranscriptUpdate)
        ensures
            describes(
                update,
                old(self).sentence(),
                old(self).sentence_start(),
                old(self).chunk_start(),
                true,
            ),
            final(self).sentence() == Seq::<char>::empty(),
            final(self).sentence_start() == old(self).sentence_start(),
            final(self).last_hash() == old(self).last_hash(),
            final(self).same_context(old(self)),
            final(self).last_update() == old(self).last_update(),
    {
        self.take_sentence(true)
    }

    fn create_complete_update(&mut self) -> (update: Option<TranscriptUpdate>)
        ensures
            update matches Some(u) && describes(
                u,
                old(self).sentence(),
                old(self).sentence_start(),
                old(self).chunk_start(),
                false,
            ),
            final(self).sentence() == Seq::<char>::empty(),
            final(self).sentence_start() == old(self).sentence_start(),
            final(self).last_hash() == old(self).last_hash(),
            final(self).same_context(old(self)),
            final(self).last_update() == old(self).last_update(),
    {
        Some(self.take_sentence(false))
    }

    fn take_sentence(&mut self, partial: bool) -> (update: TranscriptUpdate)
        ensures
            describes(
                update,
                old(self).sentence(),
                old(self).sentence_start(),
                old(self).chunk_start(),
                partial,
            ),
            final(self).sentence() == Seq::<char>::empty(),
            final(self).sentence_start() == old(self).sentence_start(),
            final(self).last_hash() == old(self).last_hash(),
            final(self).same_context(old(self)),
            final(self).last_update() == old(self).last_update(),
    {
        let sentence = chars_of(self.current_sentence.as_str());
        self.current_sentence = String::new();
        let sequence_id = self.sequence.next();
        let text = trim(sentence.as_slice());
        TranscriptUpdate {
            text: string_from_chars(text.as_slice()),
            sentence_start_time: self.sentence_start_time,
            source: String::from_str("Mixed Audio"),
            sequence_id,
            chunk_start_time: self.current_chunk_start_time,
            is_partial: partial,
        }
    }
}

impl TranscriptAccumulator {
    /// A segment that was just kept is dropped when it comes again: it
    /// gives no update and changes nothing.
    pub proof fn lemma_repeated_segment_dropped(
        a0: Self,
        a1: Self,
        a2: Self,
        segment: TranscriptSegment,
        u1: Option<TranscriptUpdate>,
        u2: Option<TranscriptUpdate>,
    )
        requires
            Self::keeps(&a0, &segment),
            Self::adds_segment(&a0, &segment, u1, &a1),
            Self::adds_segment(&a1, &segment, u2, &a2),
        ensures
            u2 is None,
            a2.same_sentence_state(&a1),
    {
    }

    /// A sentence is handed out without surrounding white space.
    pub proof fn lemma_update_text_trimmed(
        u: TranscriptUpdate,
        sentence: Seq<char>,
        sentence_start: u32,
        chunk_start: u64,
        partial: bool,
    )
        requires
            describes(u, sentence, sentence_start, chunk_start, partial),
        ensures
            trim_seq(u.text@) == u.text@,
    {
        lemma_trim_idempotent(sentence);
    }
}

/// Text ends a sentence exactly when its last character is '.', '?' or
/// '!', or a closing double or single quote right after a '.'.
pub proof fn lemma_sentence_endings(t: Seq<char>)
    ensures
        ends_sentence(t) <==> (t.len() > 0 && (t.last() == '.' || t.last() == '?' || t.last()
            == '!' || (t.len() >= 2 && t[t.len() - 2] == '.' && (t.last() == '"' || t.last()
            == '\'')))),
{
    let n = t.len() as int;
    let dot = seq!['.'];
    let question = seq!['?'];
    let bang = seq!['!'];
    let ellipsis = seq!['.', '.', '.'];
    let dq = seq!['.', '"'];
    let sq = seq!['.', '\''];
    assert(dot.len() == 1 && question.len() == 1 && bang.len() == 1);
    assert(ellipsis.len() == 3 && dq.len() == 2 && sq.len() == 2);
    if n >= 1 {
        let one = t.subrange(n - 1, n);
        assert(one =~= seq![t[n - 1]]);
        assert(ends_with_seq(t, dot) <==> one == dot);
        assert(one == dot <==> t[n - 1] == '.') by {
            if one == dot {
                assert(one[0] == dot[0]);
            }
            if t[n - 1] == '.' {
                assert(one =~= dot);
            }
        }
        assert(one == question <==> t[n - 1] == '?') by {
            if one == question {
                assert(one[0] == question[0]);
            }
            if t[n - 1] == '?' {
                assert(one =~= question);
            }
        }
        assert(one == bang <==> t[n - 1] == '!') by {
            if one == bang {
                assert(one[0] == bang[0]);
            }
            if t[n - 1] == '!' {
                assert(one =~= bang);
            }
        }
    } else {
        assert(!ends_with_seq(t, dot) && !ends_with_seq(t, question) && !ends_with_seq(t, bang));
    }
    if n >= 2 {
        let two = t.subrange(n - 2, n);
        assert(two =~= seq![t[n - 2], t[n - 1]]);
        assert(two == dq <==> (t[n - 2] == '.' && t[n - 1] == '"')) by {
            if two == dq {
                assert(two[0] == dq[0] && two[1] == dq[1]);
            }
            if t[n - 2] == '.' && t[n - 1] == '"' {
                assert(two =~= dq);
            }
        }
        assert(two == sq <==> (t[n - 2] == '.' && t[n - 1] == '\'')) by {
            if two == sq {
                assert(two[0] == sq[0] && two[1] == sq[1]);
            }
            if t[n - 2] == '.' && t[n - 1] == '\'' {
                assert(two =~= sq);
            }
        }
    } else {
        assert(!ends_with_seq(t, dq) && !ends_with_seq(t, sq));
    }
    if n >= 3 {
        let three = t.subrange(n - 3, n);
        if three == ellipsis {
            assert(three[2] == ellipsis[2]);
            assert(three[2] == t[n - 1]);
        }
    } else {
        assert(!ends_with_seq(t, ellipsis));
    }
}

/// A kept segment whose cleaned text does not end a sentence (its last
/// character is none of '.', '?', '!', '"', '\'', for instance a comma)
/// hands out nothing: its text waits, appended to the pending sentence.
pub proof fn lemma_unfinished_text_stays_pending(
    pre: TranscriptAccumulator,
    segment: TranscriptSegment,
    update: Option<TranscriptUpdate>,
    post: TranscriptAccumulator,
)
    requires
        TranscriptAccumulator::keeps(&pre, &segment),
        TranscriptAccumulator::adds_segment(&pre, &segment, update, &post),
        ({
            let c = clean_segment_text(segment.text@).last();
            c != '.' && c != '?' && c != '!' && c != '"' && c != '\''
        }),
    ensures
        update is None,
        post.sentence() == extend_sentence(pre.sentence(), clean_segment_text(segment.text@)),
{
    lemma_sentence_endings(clean_segment_text(segment.text@));
}

/// A kept segment whose cleaned text ends in '.', '?' or '!' hands out the
/// pending sentence with the text appended, trimmed, as a complete update,
/// and leaves no sentence pending.
pub proof fn lemma_finished_text_is_handed_out(
    pre: TranscriptAccumulator,
    segment: TranscriptSegment,
    update: Option<TranscriptUpdate>,
    post: TranscriptAccumulator,
)
    requires
        TranscriptAccumulator::keeps(&pre, &segment),
        TranscriptAccumulator::adds_segment(&pre, &segment, update, &post),
        ({
            let c = clean_segment_text(segment.text@).last();
            c == '.' || c == '?' || c == '!'
        }),
    ensures
        update matches Some(u) && u.text@ == trim_seq(
            extend_sentence(pre.sentence(), clean_segment_text(segment.text@)),
        ) && !u.is_partial,
        post.sentence().len() == 0,
{
    lemma_sentence_endings(clean_segment_text(segment.text@));
}

} // verus!
