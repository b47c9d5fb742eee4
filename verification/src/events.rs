//! Classification of raw key input into control events.
//!
//! The dispatch loop reads one key at a time and turns it into exactly one
//! event: an octave selection (a digit, under any modifier), a chord
//! trigger (a pitch-row letter, whose modifier picks the quality), a stop,
//! a quit, or an inert event that only gets echoed. Root pitches are in
//! centihertz.

use vstd::prelude::*;
use crate::freq::MAX_ROOT_CENTIHZ;
use crate::quality::ChordQuality;

verus! {

/// A raw key, as the terminal reports it: a plain character, one under
/// Ctrl or Alt, the backspace key, or any other key.
#[derive(Clone, Copy, PartialEq, Eq, Structural, Debug)]
pub enum KeyInput {
    Char(char),
    Ctrl(char),
    Alt(char),
    Backspace,
    Other,
}

/// One classified control event.
#[derive(Clone, Copy, PartialEq, Eq, Structural, Debug)]
pub enum Event {
    /// Select the octave for later triggers; sound does not change.
    SetOctave(u64),
    /// Play a chord on the given root pitch at the current octave.
    Trigger { root_centihz: u64, quality: ChordQuality },
    /// Pause the sounding chord, keeping the session.
    Stop,
    /// Leave the dispatch loop, pausing any sounding chord.
    Quit,
    /// An unrecognized key: echoed, no state change.
    Ignore,
}

impl Event {
    /// The ranges that every classified event respects: octaves lie in
    /// 1..=9 and root pitches are positive and within the accepted range.
    pub open spec fn wf(self) -> bool {
        match self {
            Event::SetOctave(n) => 1 <= n <= 9,
            Event::Trigger { root_centihz, .. } => 1 <= root_centihz <= MAX_ROOT_CENTIHZ,
            Event::Stop => true,
            Event::Quit => true,
            Event::Ignore => true,
        }
    }
}

/// The octave digit `1`..`9` as a number, or 0 for any other character.
pub open spec fn spec_digit_value(c: char) -> u64 {
    if c == '1' { 1 }
    else if c == '2' { 2 }
    else if c == '3' { 3 }
    else if c == '4' { 4 }
    else if c == '5' { 5 }
    else if c == '6' { 6 }
    else if c == '7' { 7 }
    else if c == '8' { 8 }
    else if c == '9' { 9 }
    else { 0 }
}

/// The root pitch of a lower-case pitch-row letter, in centihertz, or 0
/// for any other character.
pub open spec fn spec_root_lower(c: char) -> u64 {
    if c == 'q' { 1635 }
    else if c == 'w' { 1835 }
    else if c == 'e' { 2060 }
    else if c == 'r' { 2183 }
    else if c == 't' { 2450 }
    else if c == 'y' { 2750 }
    else if c == 'u' { 3087 }
    else { 0 }
}

/// The root pitch of a pitch-row letter in either case, in centihertz, or
/// 0 for any other character.
pub open spec fn spec_root_any_case(c: char) -> u64 {
    if c == 'Q' { 1635 }
    else if c == 'W' { 1835 }
    else if c == 'E' { 2060 }
    else if c == 'R' { 2183 }
    else if c == 'T' { 2450 }
    else if c == 'Y' { 2750 }
    else if c == 'U' { 3087 }
    else { spec_root_lower(c) }
}

/// The root pitch of a pitch-row letter reported as its control
/// character (the form the terminal gives the letters under Ctrl inside
/// an Alt chord), in centihertz, or 0 for any other character.
pub open spec fn spec_root_control_char(c: char) -> u64 {
    if c == '\u{11}' { 1635 }
    else if c == '\u{17}' { 1835 }
    else if c == '\u{5}' { 2060 }
    else if c == '\u{12}' { 2183 }
    else if c == '\u{14}' { 2450 }
    else if c == '\u{19}' { 2750 }
    else if c == '\u{15}' { 3087 }
    else { 0 }
}

/// What each raw key means. A digit under any modifier selects the
/// octave; a pitch-row letter triggers a chord whose quality the modifier
/// picks (none: major; Ctrl: minor; Alt: major 7th; Alt over the control
/// character: minor 7th); Ctrl-C quits; backspace stops; anything else is
/// inert.
pub open spec fn spec_classify(k: KeyInput) -> Event {
    match k {
        KeyInput::Char(c) => {
            if spec_digit_value(c) != 0 {
                Event::SetOctave(spec_digit_value(c))
            } else if spec_root_any_case(c) != 0 {
                Event::Trigger { root_centihz: spec_root_any_case(c), quality: ChordQuality::Major }
            } else {
                Event::Ignore
            }
        },
        KeyInput::Ctrl(c) => {
            if spec_digit_value(c) != 0 {
                Event::SetOctave(spec_digit_value(c))
            } else if c == 'c' {
                Event::Quit
            } else if spec_root_lower(c) != 0 {
                Event::Trigger { root_centihz: spec_root_lower(c), quality: ChordQuality::Minor }
            } else {
                Event::Ignore
            }
        },
        KeyInput::Alt(c) => {
            if spec_digit_value(c) != 0 {
                Event::SetOctave(spec_digit_value(c))
            } else if spec_root_lower(c) != 0 {
                Event::Trigger { root_centihz: spec_root_lower(c), quality: ChordQuality::Maj7 }
            } else if spec_root_control_char(c) != 0 {
                Event::Trigger {
                    root_centihz: spec_root_control_char(c),
                    quality: ChordQuality::Min7,
                }
            } else {
                Event::Ignore
            }
        },
        KeyInput::Backspace => Event::Stop,
        KeyInput::Other => Event::Ignore,
    }
}

fn digit_value(c: char) -> (n: u64)
    ensures
        n == spec_digit_value(c),
{
    if c == '1' { 1 }
    else if c == '2' { 2 }
    else if c == '3' { 3 }
    else if c == '4' { 4 }
    else if c == '5' { 5 }
    else if c == '6' { 6 }
    else if c == '7' { 7 }
    else if c == '8' { 8 }
    else if c == '9' { 9 }
    else { 0 }
}

fn root_lower(c: char) -> (r: u64)
    ensures
        r == spec_root_lower(c),
{
    if c == 'q' { 1635 }
    else if c == 'w' { 1835 }
    else if c == 'e' { 2060 }
    else if c == 'r' { 2183 }
    else if c == 't' { 2450 }
    else if c == 'y' { 2750 }
    else if c == 'u' { 3087 }
    else { 0 }
}

fn root_any_case(c: char) -> (r: u64)
    ensures
        r == spec_root_any_case(c),
{
    if c == 'Q' { 1635 }
    else if c == 'W' { 1835 }
    else if c == 'E' { 2060 }
    else if c == 'R' { 2183 }
    else if c == 'T' { 2450 }
    else if c == 'Y' { 2750 }
    else if c == 'U' { 3087 }
    else { root_lower(c) }
}

fn root_control_char(c: char) -> (r: u64)
    ensures
        r == spec_root_control_char(c),
{
    if c == '\u{11}' { 1635 }
    else if c == '\u{17}' { 1835 }
    else if c == '\u{5}' { 2060 }
    else if c == '\u{12}' { 2183 }
    else if c == '\u{14}' { 2450 }
    else if c == '\u{19}' { 2750 }
    else if c == '\u{15}' { 3087 }
    else { 0 }
}

/// Classify one raw key as its control event. Every result respects the
/// event ranges, so a trigger built from it is always valid.
pub fn classify(k: KeyInput) -> (e: Event)
    ensures
        e == spec_classify(k),
        e.wf(),
{
    match k {
        KeyInput::Char(c) => {
            let d = digit_value(c);
            if d != 0 {
                Event::SetOctave(d)
            } else {
                let r = root_any_case(c);
                if r != 0 {
                    Event::Trigger { root_centihz: r, quality: ChordQuality::Major }
                } else {
                    Event::Ignore
                }
            }
        },
        KeyInput::Ctrl(c) => {
            let d = digit_value(c);
            if d != 0 {
                Event::SetOctave(d)
            } else if c == 'c' {
                Event::Quit
            } else {
                let r = root_lower(c);
                if r != 0 {
                    Event::Trigger { root_centihz: r, quality: ChordQuality::Minor }
                } else {
                    Event::Ignore
                }
            }
        },
        KeyInput::Alt(c) => {
            let d = digit_value(c);
            if d != 0 {
                Event::SetOctave(d)
            } else {
                let r = root_lower(c);
                if r != 0 {
                    Event::Trigger { root_centihz: r, quality: ChordQuality::Maj7 }
                } else {
                    let rc = root_control_char(c);
                    if rc != 0 {
                        Event::Trigger { root_centihz: rc, quality: ChordQuality::Min7 }
                    } else {
                        Event::Ignore
                    }
                }
            }
        },
        KeyInput::Backspace => Event::Stop,
        KeyInput::Other => Event::Ignore,
    }
}

} // verus!
