use doggo_display::{EncoderState, RotaryEvent};

#[test]
fn rising_a_with_b_low_is_next() {
    let mut s = EncoderState::new(false, true);
    assert_eq!(s.sample(true, false, true), vec![RotaryEvent::Next]);
    assert!(s.last_a);
}

#[test]
fn rising_a_with_b_high_is_previous() {
    let mut s = EncoderState::new(false, true);
    assert_eq!(s.sample(true, true, true), vec![RotaryEvent::Previous]);
}

#[test]
fn falling_a_gives_nothing_but_is_remembered() {
    let mut s = EncoderState::new(true, true);
    assert_eq!(s.sample(false, false, true), vec![]);
    assert!(!s.last_a);
    assert_eq!(s.sample(true, false, true), vec![RotaryEvent::Next]);
}

#[test]
fn steady_levels_give_nothing() {
    let mut s = EncoderState::new(true, true);
    assert_eq!(s.sample(true, false, true), vec![]);
    assert_eq!(s.sample(true, true, true), vec![]);
}

#[test]
fn button_press_is_falling_edge_only() {
    let mut s = EncoderState::new(false, true);
    assert_eq!(s.sample(false, false, false), vec![RotaryEvent::Activate]);
    // Held down: nothing more.
    assert_eq!(s.sample(false, false, false), vec![]);
    // Released: nothing.
    assert_eq!(s.sample(false, false, true), vec![]);
    assert!(s.last_button);
}

#[test]
fn rotation_and_press_in_one_sample() {
    let mut s = EncoderState::new(false, true);
    assert_eq!(
        s.sample(true, false, false),
        vec![RotaryEvent::Next, RotaryEvent::Activate]
    );
    assert_eq!(s, EncoderState { last_a: true, last_button: false });
}
