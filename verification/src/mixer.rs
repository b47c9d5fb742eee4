//! The bounded-duration mixed sample sequence.
//!
//! A chord is rendered once into a finite run of sample words (the equal-
//! weighted mean of its voices, one word per step; the word 0 is silence).
//! A `MixedSequence` owns that run together with a single forward-only
//! cursor: each pull yields one word and advances the cursor, and once the
//! cursor has passed the end every further pull yields the exhaustion
//! signal `None`, never an error and never a restart.

use vstd::prelude::*;

verus! {

/// A finite mixed sample sequence and its forward-only cursor.
pub struct MixedSequence {
    /// The rendered sample words, one per step of the chord's duration.
    pub samples: Vec<u32>,
    /// The cursor: how many words have been pulled so far.
    pub pos: usize,
}

/// How many frames a buffer of `buf_len` slots holds when every frame has
/// `channels` slots: the trailing partial frame, if any, counts too.
pub open spec fn spec_frame_count(buf_len: int, channels: int) -> int {
    if buf_len == 0 {
        0
    } else {
        (buf_len - 1) / channels + 1
    }
}

impl MixedSequence {
    /// The cursor never stands past the end of the samples.
    pub open spec fn wf(self) -> bool {
        self.pos <= self.samples@.len()
    }

    /// Whether the sequence has yielded all of its samples.
    pub open spec fn spec_exhausted(self) -> bool {
        self.pos >= self.samples@.len()
    }

    /// The value that the `k`-th pull from here would produce once mapped
    /// to output: the stored word while within the duration, silence (0)
    /// after exhaustion.
    pub open spec fn spec_output_at(self, k: int) -> u32 {
        if 0 <= k && self.pos + k < self.samples@.len() {
            self.samples@[self.pos + k]
        } else {
            0
        }
    }

    /// A sequence that is exhausted from the start: pure silence.
    pub fn empty() -> (s: Self)
        ensures
            s.samples@.len() == 0,
            s.pos == 0,
            s.wf(),
            s.spec_exhausted(),
    {
        MixedSequence { samples: Vec::new(), pos: 0 }
    }

    /// A fresh sequence over `samples`, cursor at the first word.
    pub fn new(samples: Vec<u32>) -> (s: Self)
        ensures
            s.samples@ == samples@,
            s.pos == 0,
            s.wf(),
    {
        MixedSequence { samples, pos: 0 }
    }

    /// Pull one sample: the word under the cursor and an advance while
    /// within the duration, the exhaustion signal `None` (and no movement)
    /// after it.
    pub fn next(&mut self) -> (r: Option<u32>)
        requires
            old(self).wf(),
        ensures
            final(self).wf(),
            final(self).samples@ == old(self).samples@,
            !old(self).spec_exhausted() ==> r == Some(old(self).samples@[old(self).pos as int])
                && final(self).pos == old(self).pos + 1,
            old(self).spec_exhausted() ==> r is None && final(self).pos == old(self).pos,
    {
        if self.pos < self.samples.len() {
            let v = self.samples[self.pos];
            self.pos = self.pos + 1;
            Some(v)
        } else {
            None
        }
    }

    /// Fill an interleaved output buffer: frame `f` (the slots
    /// `f * channels .. (f + 1) * channels`) all receive the value of the
    /// `f`-th pull, a stored word or silence, and the cursor advances by
    /// the number of frames, saturating at the end of the samples.
    pub fn write_frames(&mut self, out: &mut Vec<u32>, channels: usize)
        requires
            old(self).wf(),
            channels >= 1,
        ensures
            final(self).wf(),
            final(self).samples@ == old(self).samples@,
            final(out)@.len() == old(out)@.len(),
            forall|i: int|
                0 <= i < old(out)@.len() ==> final(out)@[i] == old(self).spec_output_at(
                    i / (channels as int),
                ),
            final(self).pos == if old(self).pos + spec_frame_count(
                old(out)@.len() as int,
                channels as int,
            ) <= old(self).samples@.len() {
                old(self).pos + spec_frame_count(old(out)@.len() as int, channels as int)
            } else {
                old(self).samples@.len() as int
            },
    {
        let len = out.len();
        let mut i: usize = 0;
        while i < len
            invariant
                i <= len,
                channels >= 1,
                self.wf(),
                *self == *old(self),
                out@.len() == len,
                forall|t: int|
                    0 <= t < i ==> out@[t] == old(self).spec_output_at(t / (channels as int)),
            decreases len - i,
        {
            let f = i / channels;
            let rem = self.samples.len() - self.pos;
            let v = if f < rem {
                self.samples[self.pos + f]
            } else {
                0
            };
            proof {
                assert(0 <= i as int / (channels as int) <= i as int) by (nonlinear_arith)
                    requires
                        channels >= 1,
                        0 <= i,
                ;
                assert(f == i as int / (channels as int));
            }
            out.set(i, v);
            i = i + 1;
        }
        let nframes = if len == 0 {
            0
        } else {
            (len - 1) / channels + 1
        };
        proof {
            assert(nframes == spec_frame_count(len as int, channels as int));
        }
        let rem = self.samples.len() - self.pos;
        if nframes <= rem {
            self.pos = self.pos + nframes;
        } else {
            self.pos = self.samples.len();
        }
    }
}

/// Exhaustion is permanent: once the cursor stands at or past the end,
/// every future pull maps to silence, at every distance `k`.
pub proof fn lemma_exhaustion_is_permanent(s: MixedSequence, k: int)
    requires
        s.wf(),
        s.spec_exhausted(),
    ensures
        s.spec_output_at(k) == 0,
{
}

} // verus!
