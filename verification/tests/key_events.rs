use chordsynth::events::classify;
use chordsynth::events::Event;
use chordsynth::events::KeyInput;
use chordsynth::quality::ChordQuality;

#[test]
fn digits_select_the_octave_under_any_modifier() {
    assert_eq!(classify(KeyInput::Char('1')), Event::SetOctave(1));
    assert_eq!(classify(KeyInput::Char('5')), Event::SetOctave(5));
    assert_eq!(classify(KeyInput::Char('9')), Event::SetOctave(9));
    assert_eq!(classify(KeyInput::Ctrl('7')), Event::SetOctave(7));
    assert_eq!(classify(KeyInput::Alt('3')), Event::SetOctave(3));
}

#[test]
fn zero_is_not_an_octave() {
    assert_eq!(classify(KeyInput::Char('0')), Event::Ignore);
}

#[test]
fn plain_letters_trigger_major_chords() {
    let rows = [
        ('q', 1635),
        ('w', 1835),
        ('e', 2060),
        ('r', 2183),
        ('t', 2450),
        ('y', 2750),
        ('u', 3087),
    ];
    for (c, root) in rows {
        let expected = Event::Trigger { root_centihz: root, quality: ChordQuality::Major };
        assert_eq!(classify(KeyInput::Char(c)), expected);
        assert_eq!(classify(KeyInput::Char(c.to_ascii_uppercase())), expected);
    }
}

#[test]
fn ctrl_letters_trigger_minor_chords() {
    assert_eq!(
        classify(KeyInput::Ctrl('q')),
        Event::Trigger { root_centihz: 1635, quality: ChordQuality::Minor }
    );
    assert_eq!(
        classify(KeyInput::Ctrl('u')),
        Event::Trigger { root_centihz: 3087, quality: ChordQuality::Minor }
    );
    // Upper case is only mapped for plain characters.
    assert_eq!(classify(KeyInput::Ctrl('Q')), Event::Ignore);
}

#[test]
fn alt_letters_trigger_major_sevenths() {
    assert_eq!(
        classify(KeyInput::Alt('w')),
        Event::Trigger { root_centihz: 1835, quality: ChordQuality::Maj7 }
    );
    assert_eq!(
        classify(KeyInput::Alt('y')),
        Event::Trigger { root_centihz: 2750, quality: ChordQuality::Maj7 }
    );
}

#[test]
fn alt_control_characters_trigger_minor_sevenths() {
    let rows = [
        ('\u{11}', 1635),
        ('\u{17}', 1835),
        ('\u{5}', 2060),
        ('\u{12}', 2183),
        ('\u{14}', 2450),
        ('\u{19}', 2750),
        ('\u{15}', 3087),
    ];
    for (c, root) in rows {
        assert_eq!(
            classify(KeyInput::Alt(c)),
            Event::Trigger { root_centihz: root, quality: ChordQuality::Min7 }
        );
    }
}

#[test]
fn ctrl_c_quits_and_backspace_stops() {
    assert_eq!(classify(KeyInput::Ctrl('c')), Event::Quit);
    assert_eq!(classify(KeyInput::Backspace), Event::Stop);
}

#[test]
fn unmapped_keys_are_inert() {
    assert_eq!(classify(KeyInput::Char('z')), Event::Ignore);
    assert_eq!(classify(KeyInput::Char(' ')), Event::Ignore);
    assert_eq!(classify(KeyInput::Ctrl('x')), Event::Ignore);
    assert_eq!(classify(KeyInput::Alt('#')), Event::Ignore);
    assert_eq!(classify(KeyInput::Other), Event::Ignore);
}
