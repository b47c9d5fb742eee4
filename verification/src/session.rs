//! The playback session manager and the audio callback surface.
//!
//! A session is the control-thread state of the synthesizer: the playback
//! state (idle, playing, paused), the selected octave, the device sample
//! rate, and the mixed sequence the audio callback is draining. Handling
//! an event never does I/O itself; it updates the state and answers with
//! the one action the surrounding loop must carry out against the device
//! (render and install a chord, pause the stream, exit, or nothing).
//!
//! Replacement is deterministic: a trigger first asks for a render at the
//! current octave; installing the rendered chord then resets the sequence
//! and puts the session in the playing state, whatever was sounding
//! before. The caller pauses the old stream before starting the new one.

use vstd::prelude::*;
use crate::events::Event;
use crate::freq::MAX_OCTAVE;
use crate::freq::MIN_OCTAVE;
use crate::freq::spec_voice_frequency;
use crate::freq::voice_frequencies;
use crate::freq::pow2;
use crate::mixer::MixedSequence;
use crate::mixer::spec_frame_count;
use crate::quality::ChordQuality;
use crate::quality::spec_ratio_fortieths;
use crate::quality::spec_voice_count;

verus! {

/// Seconds a triggered chord sounds before the sequence is exhausted.
pub const CHORD_SECONDS: u64 = 5;

/// Largest accepted device sample rate, in frames per second.
pub const MAX_SAMPLE_RATE: u64 = 1_000_000;

/// Default octave of a fresh session.
pub const DEFAULT_OCTAVE: u64 = 4;

/// The playback state of the session.
#[derive(Clone, Copy, PartialEq, Eq, Structural, Debug)]
pub enum PlayState {
    /// No stream was ever started.
    Idle,
    /// A stream is live and draining the sequence.
    Playing,
    /// A stream exists but is suppressed.
    Paused,
}

/// What the control loop must do against the audio device after an event.
pub enum Action {
    /// Render these voices (frequencies in 1/4000 Hz) for this many
    /// samples, mix them, and install the result with `start_chord`.
    Synthesize { voices: Vec<u64>, duration_samples: u64 },
    /// Pause the live output stream.
    PauseStream,
    /// Pause any live output stream and leave the dispatch loop.
    Exit,
    /// Nothing to carry out.
    NoOp,
}

/// How many samples a chord at this sample rate holds.
pub open spec fn spec_duration_samples(sample_rate: u64) -> int {
    sample_rate * CHORD_SECONDS
}

/// The octave after an event: an octave selection moves it, nothing else
/// touches it.
pub open spec fn spec_octave_after(octave: u64, e: Event) -> u64 {
    match e {
        Event::SetOctave(n) => n,
        _ => octave,
    }
}

/// The playback state after an event. A stop or a quit pauses a playing
/// session; an octave selection and an inert event change nothing; a
/// trigger changes nothing yet either — the session starts playing only
/// when the rendered chord is installed with `start_chord`.
pub open spec fn spec_state_after(state: PlayState, e: Event) -> PlayState {
    match e {
        Event::Stop | Event::Quit => if state is Playing {
            PlayState::Paused
        } else {
            state
        },
        _ => state,
    }
}

/// How many samples a chord at this sample rate holds: the fixed duration
/// times the rate.
pub fn duration_samples(sample_rate: u64) -> (d: u64)
    requires
        1 <= sample_rate <= MAX_SAMPLE_RATE,
    ensures
        d == spec_duration_samples(sample_rate),
        d <= 5_000_000,
{
    sample_rate * CHORD_SECONDS
}

/// The control-thread state of the synthesizer.
pub struct Session {
    /// Current playback state.
    pub state: PlayState,
    /// Octave applied to the next trigger, 1 through 9.
    pub octave: u64,
    /// Device sample rate, in frames per second.
    pub sample_rate: u64,
    /// The sequence the audio callback drains; exhausted when idle.
    pub seq: MixedSequence,
}

impl Session {
    /// The session invariant: octave and sample rate in range, and a
    /// well-formed sequence.
    pub open spec fn wf(self) -> bool {
        &&& MIN_OCTAVE <= self.octave <= MAX_OCTAVE
        &&& 1 <= self.sample_rate <= MAX_SAMPLE_RATE
        &&& self.seq.wf()
    }

    /// The value the `k`-th future pull of the audio callback maps to: a
    /// word of the sequence while the session plays and the sequence
    /// lasts, silence in every other case.
    pub open spec fn spec_output_at(self, k: int) -> u32 {
        if self.state is Playing {
            self.seq.spec_output_at(k)
        } else {
            0
        }
    }

    /// A fresh idle session at the default octave, with an exhausted
    /// (silent) sequence.
    pub fn new(sample_rate: u64) -> (s: Session)
        requires
            1 <= sample_rate <= MAX_SAMPLE_RATE,
        ensures
            s.wf(),
            s.state == PlayState::Idle,
            s.octave == DEFAULT_OCTAVE,
            s.sample_rate == sample_rate,
            s.seq.samples@.len() == 0,
            s.seq.spec_exhausted(),
    {
        Session {
            state: PlayState::Idle,
            octave: DEFAULT_OCTAVE,
            sample_rate,
            seq: MixedSequence::empty(),
        }
    }

    /// Step the state machine on one classified event.
    ///
    /// An octave selection changes the octave and nothing else — no sound,
    /// no action. A trigger changes nothing yet: it answers with the exact
    /// voices to render, expanded at the current octave, and the fixed
    /// duration; the chord starts sounding when the render is installed
    /// with `start_chord`. A stop pauses a playing session; a quit does
    /// the same and asks the loop to exit. An inert event does nothing.
    pub fn handle_event(&mut self, e: Event) -> (a: Action)
        requires
            old(self).wf(),
            e.wf(),
        ensures
            final(self).wf(),
            final(self).sample_rate == old(self).sample_rate,
            final(self).octave == spec_octave_after(old(self).octave, e),
            final(self).state == spec_state_after(old(self).state, e),
            final(self).seq == old(self).seq,
            match e {
                Event::SetOctave(_) => a is NoOp,
                Event::Trigger { root_centihz, quality } => a matches Action::Synthesize {
                    voices,
                    duration_samples: dur,
                } && {
                    &&& voices@.len() == spec_voice_count(quality)
                    &&& forall|j: int|
                        0 <= j < voices@.len() ==> voices@[j] == spec_voice_frequency(
                            root_centihz,
                            old(self).octave,
                            quality,
                            j,
                        )
                    &&& dur == spec_duration_samples(old(self).sample_rate)
                },
                Event::Stop => a == (if old(self).state is Idle {
                    Action::NoOp
                } else {
                    Action::PauseStream
                }),
                Event::Quit => a is Exit,
                Event::Ignore => a is NoOp,
            },
    {
        match e {
            Event::SetOctave(n) => {
                self.octave = n;
                Action::NoOp
            },
            Event::Trigger { root_centihz, quality } => {
                let voices = voice_frequencies(root_centihz, self.octave, quality);
                let dur = duration_samples(self.sample_rate);
                Action::Synthesize { voices, duration_samples: dur }
            },
            Event::Stop => {
                match self.state {
                    PlayState::Idle => Action::NoOp,
                    PlayState::Playing => {
                        self.state = PlayState::Paused;
                        Action::PauseStream
                    },
                    PlayState::Paused => Action::PauseStream,
                }
            },
            Event::Quit => {
                if self.state == PlayState::Playing {
                    self.state = PlayState::Paused;
                }
                Action::Exit
            },
            Event::Ignore => Action::NoOp,
        }
    }

    /// Install a rendered chord: the sequence is replaced by a fresh one
    /// over `samples` with the cursor at the start, and the session plays.
    /// Whatever chord was sounding before is superseded completely; the
    /// output from here on is determined by `samples` alone.
    pub fn start_chord(&mut self, samples: Vec<u32>)
        requires
            old(self).wf(),
            samples@.len() == spec_duration_samples(old(self).sample_rate),
        ensures
            final(self).wf(),
            final(self).state == PlayState::Playing,
            final(self).octave == old(self).octave,
            final(self).sample_rate == old(self).sample_rate,
            final(self).seq.samples@ == samples@,
            final(self).seq.pos == 0,
    {
        self.seq = MixedSequence::new(samples);
        self.state = PlayState::Playing;
    }

    /// The audio callback surface: fill an interleaved buffer, one pull
    /// per frame fanned out to every channel slot of that frame. While
    /// playing, the values come from the sequence (silence once it is
    /// exhausted) and the cursor advances by the number of frames; when
    /// idle or paused the buffer is filled with silence and nothing moves.
    pub fn pull_frames(&mut self, out: &mut Vec<u32>, channels: usize)
        requires
            old(self).wf(),
            channels >= 1,
        ensures
            final(self).wf(),
            final(self).state == old(self).state,
            final(self).octave == old(self).octave,
            final(self).sample_rate == old(self).sample_rate,
            final(out)@.len() == old(out)@.len(),
            forall|i: int|
                0 <= i < old(out)@.len() ==> final(out)@[i] == old(self).spec_output_at(
                    i / (channels as int),
                ),
            old(self).state is Playing ==> {
                &&& final(self).seq.samples@ == old(self).seq.samples@
                &&& final(self).seq.pos == (if old(self).seq.pos + spec_frame_count(
                    old(out)@.len() as int,
                    channels as int,
                ) <= old(self).seq.samples@.len() {
                    old(self).seq.pos + spec_frame_count(old(out)@.len() as int, channels as int)
                } else {
                    old(self).seq.samples@.len() as int
                })
            },
            !(old(self).state is Playing) ==> final(self).seq == old(self).seq,
    {
        if self.state == PlayState::Playing {
            self.seq.write_frames(out, channels);
        } else {
            let len = out.len();
            let mut i: usize = 0;
            while i < len
                invariant
                    i <= len,
                    out@.len() == len,
                    forall|t: int| 0 <= t < i ==> out@[t] == 0,
                decreases len - i,
            {
                out.set(i, 0);
                i = i + 1;
            }
        }
    }
}

/// An octave-select event changes only the octave state — playback state
/// and sound stay as they were — and a trigger that follows expands its
/// voices at the updated octave, not at the one it replaced.
pub proof fn lemma_octave_select_shapes_next_trigger(
    octave: u64,
    state: PlayState,
    n: u64,
    root_centihz: u64,
    q: ChordQuality,
    j: int,
)
    ensures
        spec_octave_after(octave, Event::SetOctave(n)) == n,
        spec_state_after(state, Event::SetOctave(n)) == state,
        spec_voice_frequency(
            root_centihz,
            spec_octave_after(octave, Event::SetOctave(n)),
            q,
            j,
        ) == root_centihz * pow2(n as nat) * spec_ratio_fortieths(q, j),
{
}

/// Once a rendered chord is installed — the session plays and the cursor
/// stands at the start, as `start_chord` leaves it — the audible output is
/// determined by the installed samples alone: the `k`-th pull maps to the
/// `k`-th sample within the duration and to silence after it, whatever
/// chord was sounding before the replacement.
pub proof fn lemma_installed_chord_owns_the_output(s: Session, k: int)
    requires
        s.state is Playing,
        s.seq.pos == 0,
    ensures
        s.spec_output_at(k) == (if 0 <= k < s.seq.samples@.len() {
            s.seq.samples@[k]
        } else {
            0
        }),
{
}

/// A session that is not playing — idle, or paused by a stop event — maps
/// every pull to silence until the next chord is installed.
pub proof fn lemma_non_playing_is_silent(s: Session, k: int)
    requires
        !(s.state is Playing),
    ensures
        s.spec_output_at(k) == 0,
{
}

} // verus!
