//! Chord qualities and their interval ratio tables.
//!
//! Each quality maps to four multiplicative ratios applied to the base
//! frequency, given here in fortieths (a ratio of `k` fortieths multiplies
//! the base frequency by `k / 40`). The value 0 is the unused-voice
//! sentinel: such a slot contributes no oscillator at all.

use vstd::prelude::*;

verus! {

/// Selector of the interval ratios of a chord. Stateless.
#[derive(Clone, Copy, PartialEq, Eq, Structural, Debug)]
pub enum ChordQuality {
    Major,
    Minor,
    Maj7,
    Min7,
}

/// Number of ratio slots per chord, used and unused together.
pub const RATIO_SLOTS: usize = 4;

/// The ratio of slot `i` of quality `q`, in fortieths of the base
/// frequency; 0 marks an unused slot. Slots beyond `RATIO_SLOTS` are 0.
pub open spec fn spec_ratio_fortieths(q: ChordQuality, i: int) -> u64 {
    match q {
        ChordQuality::Major => {
            if i == 0 { 40 } else if i == 1 { 50 } else if i == 2 { 60 } else { 0 }
        },
        ChordQuality::Minor => {
            if i == 0 { 40 } else if i == 1 { 48 } else if i == 2 { 60 } else { 0 }
        },
        ChordQuality::Maj7 => {
            if i == 0 { 40 } else if i == 1 { 50 } else if i == 2 { 60 } else if i == 3 { 75 } else { 0 }
        },
        ChordQuality::Min7 => {
            if i == 0 { 40 } else if i == 1 { 48 } else if i == 2 { 60 } else if i == 3 { 72 } else { 0 }
        },
    }
}

/// How many voices of `q` are active: the slots with a non-zero ratio.
pub open spec fn spec_voice_count(q: ChordQuality) -> int {
    match q {
        ChordQuality::Major => 3,
        ChordQuality::Minor => 3,
        ChordQuality::Maj7 => 4,
        ChordQuality::Min7 => 4,
    }
}

/// The active slots are exactly the first `spec_voice_count(q)` ones, and
/// every active ratio is at least 1 (positive) and at most 75.
pub proof fn lemma_voice_count_is_active_slots(q: ChordQuality)
    ensures
        forall|i: int| 0 <= i < spec_voice_count(q) ==> 1 <= #[trigger] spec_ratio_fortieths(q, i) <= 75,
        forall|i: int| i >= spec_voice_count(q) ==> #[trigger] spec_ratio_fortieths(q, i) == 0,
        (q == ChordQuality::Major || q == ChordQuality::Minor) ==> spec_voice_count(q) == 3,
        (q == ChordQuality::Maj7 || q == ChordQuality::Min7) ==> spec_voice_count(q) == 4,
{
}

impl ChordQuality {
    /// The ratio of slot `i`, in fortieths of the base frequency.
    pub fn ratio_fortieths(&self, i: usize) -> (r: u64)
        requires
            i < RATIO_SLOTS,
        ensures
            r == spec_ratio_fortieths(*self, i as int),
    {
        match *self {
            ChordQuality::Major => {
                if i == 0 { 40 } else if i == 1 { 50 } else if i == 2 { 60 } else { 0 }
            },
            ChordQuality::Minor => {
                if i == 0 { 40 } else if i == 1 { 48 } else if i == 2 { 60 } else { 0 }
            },
            ChordQuality::Maj7 => {
                if i == 0 { 40 } else if i == 1 { 50 } else if i == 2 { 60 } else { 75 }
            },
            ChordQuality::Min7 => {
                if i == 0 { 40 } else if i == 1 { 48 } else if i == 2 { 60 } else { 72 }
            },
        }
    }

    /// How many voices this quality mixes: 3 for the triads, 4 for the
    /// sevenths.
    pub fn voice_count(&self) -> (n: usize)
        ensures
            n == spec_voice_count(*self),
            (*self == ChordQuality::Major || *self == ChordQuality::Minor) ==> n == 3,
            (*self == ChordQuality::Maj7 || *self == ChordQuality::Min7) ==> n == 4,
    {
        match *self {
            ChordQuality::Major => 3,
            ChordQuality::Minor => 3,
            ChordQuality::Maj7 => 4,
            ChordQuality::Min7 => 4,
        }
    }
}

} // verus!
