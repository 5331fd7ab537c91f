use rscom::input::classify;
use rscom::input::InputEvent;
use rscom::input::Key;

#[test]
fn prefix_chord_flips_to_command() {
    assert_eq!(classify(Key::Character('a'), true), InputEvent::PrefixChord);
}

#[test]
fn plain_characters_are_forwarded() {
    assert_eq!(classify(Key::Character('a'), false), InputEvent::Forward('a'));
    assert_eq!(classify(Key::Character('q'), false), InputEvent::Forward('q'));
    assert_eq!(classify(Key::Character(' '), false), InputEvent::Forward(' '));
}

#[test]
fn control_with_another_letter_is_not_the_chord() {
    assert_eq!(classify(Key::Character('b'), true), InputEvent::Forward('b'));
    assert_eq!(classify(Key::Character('u'), true), InputEvent::Forward('u'));
}

#[test]
fn enter_becomes_carriage_return() {
    assert_eq!(classify(Key::Enter, false), InputEvent::Forward('\r'));
    assert_eq!(classify(Key::Enter, true), InputEvent::Forward('\r'));
}

#[test]
fn other_keys_are_unrecognized() {
    assert_eq!(classify(Key::Other, false), InputEvent::Unrecognized);
    assert_eq!(classify(Key::Other, true), InputEvent::Unrecognized);
}
