//! A polyphonic chord synthesizer core: chord-quality ratio tables, exact
//! integer frequency expansion, a bounded-duration mixed sample sequence with
//! an explicit exhaustion signal, a playback session state machine, and the
//! per-frame channel fan-out used by an audio callback.
//!
//! All frequencies are integers in units of 1/4000 Hz, so that every chord
//! ratio (5/4, 6/5, 3/2, 15/8, 9/5) applied to a centihertz root at any
//! octave is exact. Sample values are carried as opaque 32-bit words (the
//! bit pattern of the device's normalized sample), with 0 meaning silence.

pub mod events;
pub mod freq;
pub mod mixer;
pub mod quality;
pub mod session;
