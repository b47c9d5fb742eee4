use chordsynth::events::Event;
use chordsynth::mixer::MixedSequence;
use chordsynth::quality::ChordQuality;
use chordsynth::session::Action;
use chordsynth::session::PlayState;
use chordsynth::session::Session;
use chordsynth::freq::voice_frequencies;

fn expect_synthesize(a: Action) -> (Vec<u64>, u64) {
    match a {
        Action::Synthesize { voices, duration_samples } => (voices, duration_samples),
        _ => panic!("expected a synthesize action"),
    }
}

#[test]
fn pulls_yield_samples_then_exhaustion_forever() {
    let mut seq = MixedSequence::new(vec![1, 2, 3]);
    assert_eq!(seq.next(), Some(1));
    assert_eq!(seq.next(), Some(2));
    assert_eq!(seq.next(), Some(3));
    // Exhaustion is idempotent: pulling again still signals exhaustion.
    assert_eq!(seq.next(), None);
    assert_eq!(seq.next(), None);
    assert_eq!(seq.next(), None);
}

#[test]
fn frames_fan_one_pull_out_to_every_channel() {
    let mut seq = MixedSequence::new(vec![10, 20]);
    let mut out = vec![99u32; 8];
    seq.write_frames(&mut out, 2);
    assert_eq!(out, vec![10, 10, 20, 20, 0, 0, 0, 0]);
}

#[test]
fn a_trailing_partial_frame_still_gets_one_pull() {
    let mut seq = MixedSequence::new(vec![10, 20]);
    let mut out = vec![99u32; 3];
    seq.write_frames(&mut out, 2);
    assert_eq!(out, vec![10, 10, 20]);
    // Two frames were consumed, so the sequence is now exhausted.
    assert_eq!(seq.next(), None);
}

#[test]
fn a_fresh_session_is_idle_at_octave_four() {
    let mut s = Session::new(8);
    assert_eq!(s.state, PlayState::Idle);
    assert_eq!(s.octave, 4);
    let mut out = vec![99u32; 4];
    s.pull_frames(&mut out, 2);
    assert_eq!(out, vec![0, 0, 0, 0]);
}

#[test]
fn octave_event_changes_only_the_octave_and_makes_no_sound() {
    let mut s = Session::new(8);
    let a = s.handle_event(Event::SetOctave(6));
    assert!(matches!(a, Action::NoOp));
    assert_eq!(s.octave, 6);
    assert_eq!(s.state, PlayState::Idle);
    let mut out = vec![99u32; 4];
    s.pull_frames(&mut out, 1);
    assert_eq!(out, vec![0, 0, 0, 0]);
}

#[test]
fn a_trigger_uses_the_updated_octave() {
    let mut s = Session::new(8);
    s.handle_event(Event::SetOctave(2));
    let a = s.handle_event(Event::Trigger { root_centihz: 1635, quality: ChordQuality::Major });
    let (voices, duration) = expect_synthesize(a);
    assert_eq!(voices, voice_frequencies(1635, 2, ChordQuality::Major));
    assert_eq!(voices, vec![261_600, 327_000, 392_400]);
    assert_eq!(duration, 40); // 5 seconds at 8 samples per second
}

#[test]
fn installing_a_chord_plays_it_frame_by_frame() {
    let mut s = Session::new(4); // duration: 20 samples
    let a = s.handle_event(Event::Trigger { root_centihz: 1635, quality: ChordQuality::Major });
    let (_, duration) = expect_synthesize(a);
    assert_eq!(duration, 20);
    let samples: Vec<u32> = (100..120).collect();
    s.start_chord(samples);
    assert_eq!(s.state, PlayState::Playing);
    let mut out = vec![0u32; 6];
    s.pull_frames(&mut out, 2);
    assert_eq!(out, vec![100, 100, 101, 101, 102, 102]);
    let mut out2 = vec![0u32; 4];
    s.pull_frames(&mut out2, 2);
    assert_eq!(out2, vec![103, 103, 104, 104]);
}

#[test]
fn playback_is_silent_after_the_duration_but_never_errors() {
    let mut s = Session::new(1); // duration: 5 samples
    s.start_chord(vec![7, 8, 9, 10, 11]);
    let mut out = vec![0u32; 5];
    s.pull_frames(&mut out, 1);
    assert_eq!(out, vec![7, 8, 9, 10, 11]);
    // Every pull past the duration yields silence, again and again.
    let mut out2 = vec![99u32; 4];
    s.pull_frames(&mut out2, 1);
    assert_eq!(out2, vec![0, 0, 0, 0]);
    let mut out3 = vec![99u32; 4];
    s.pull_frames(&mut out3, 1);
    assert_eq!(out3, vec![0, 0, 0, 0]);
    assert_eq!(s.state, PlayState::Playing);
}

#[test]
fn a_new_trigger_replaces_the_sounding_chord_immediately() {
    let mut s = Session::new(1); // duration: 5 samples
    s.start_chord(vec![1, 1, 1, 1, 1]);
    let mut out = vec![0u32; 2];
    s.pull_frames(&mut out, 1);
    assert_eq!(out, vec![1, 1]);
    // The first chord is still within its duration when the next arrives.
    let a = s.handle_event(Event::Trigger { root_centihz: 2450, quality: ChordQuality::Min7 });
    let (voices, duration) = expect_synthesize(a);
    assert_eq!(voices.len(), 4);
    assert_eq!(duration, 5);
    s.start_chord(vec![2, 2, 2, 2, 2]);
    // Output now reflects only the new chord, from its first sample.
    let mut out2 = vec![0u32; 6];
    s.pull_frames(&mut out2, 1);
    assert_eq!(out2, vec![2, 2, 2, 2, 2, 0]);
}

#[test]
fn stop_pauses_and_the_callback_emits_only_zeros() {
    let mut s = Session::new(1);
    s.start_chord(vec![5, 6, 7, 8, 9]);
    let a = s.handle_event(Event::Stop);
    assert!(matches!(a, Action::PauseStream));
    assert_eq!(s.state, PlayState::Paused);
    let mut out = vec![99u32; 4];
    s.pull_frames(&mut out, 2);
    assert_eq!(out, vec![0, 0, 0, 0]);
    // Until the next trigger is installed, after which sound returns.
    s.start_chord(vec![5, 6, 7, 8, 9]);
    assert_eq!(s.state, PlayState::Playing);
    let mut out2 = vec![0u32; 2];
    s.pull_frames(&mut out2, 1);
    assert_eq!(out2, vec![5, 6]);
}

#[test]
fn stop_when_idle_does_nothing() {
    let mut s = Session::new(1);
    let a = s.handle_event(Event::Stop);
    assert!(matches!(a, Action::NoOp));
    assert_eq!(s.state, PlayState::Idle);
}

#[test]
fn quit_pauses_a_playing_chord_and_exits() {
    let mut s = Session::new(1);
    s.start_chord(vec![1, 2, 3, 4, 5]);
    let a = s.handle_event(Event::Quit);
    assert!(matches!(a, Action::Exit));
    assert_eq!(s.state, PlayState::Paused);
}

#[test]
fn ignored_events_change_nothing() {
    let mut s = Session::new(1);
    s.start_chord(vec![1, 2, 3, 4, 5]);
    let a = s.handle_event(Event::Ignore);
    assert!(matches!(a, Action::NoOp));
    assert_eq!(s.state, PlayState::Playing);
    assert_eq!(s.octave, 4);
}

#[test]
fn mixed_samples_are_the_mean_of_the_sine_voices() {
    // The reference chord: root 16.35 Hz, major, octave 4. The mix of the
    // three voices is their arithmetic mean at every step; the session
    // carries those samples bit-exactly and yields silence afterwards.
    let rate = 800u64;
    let mut s = Session::new(rate);
    s.handle_event(Event::SetOctave(4));
    let a = s.handle_event(Event::Trigger { root_centihz: 1635, quality: ChordQuality::Major });
    let (voices, duration) = expect_synthesize(a);
    let hz: Vec<f64> = voices.iter().map(|&u| u as f64 / 4000.0).collect();
    assert_eq!(hz, vec![261.6, 327.0, 392.4]);
    assert_eq!(duration, 5 * rate);

    let mixed: Vec<u32> = (0..duration)
        .map(|n| {
            let sum: f64 = hz
                .iter()
                .map(|f| (2.0 * std::f64::consts::PI * f * n as f64 / rate as f64).sin())
                .sum();
            ((sum / hz.len() as f64) as f32).to_bits()
        })
        .collect();
    let expected = mixed.clone();
    s.start_chord(mixed);

    let mut out = vec![0u32; duration as usize];
    s.pull_frames(&mut out, 1);
    for n in 0..duration as usize {
        let got = f32::from_bits(out[n]);
        let want = f32::from_bits(expected[n]);
        assert_eq!(got, want);
        // And the mean really is the mean of the three sine values.
        let mean: f64 = hz
            .iter()
            .map(|f| (2.0 * std::f64::consts::PI * f * n as f64 / rate as f64).sin())
            .sum::<f64>()
            / 3.0;
        assert!((got as f64 - mean).abs() < 1e-6);
    }
    let mut tail = vec![99u32; 8];
    s.pull_frames(&mut tail, 2);
    assert_eq!(tail, vec![0, 0, 0, 0, 0, 0, 0, 0]);
}
