use doggo_display::{ControlState, DisplayBlock, EventOutcome, RotaryEvent};

fn block(button_enabled: bool, refresh_interval: u64) -> DisplayBlock {
    DisplayBlock {
        top_line: "top".to_string(),
        second_line: "second".to_string(),
        button_enabled,
        function_to_run: "true".to_string(),
        refresh_interval,
    }
}

fn three() -> Vec<DisplayBlock> {
    vec![block(false, 0), block(true, 0), block(false, 5)]
}

#[test]
fn three_next_events_cycle() {
    let blocks = three();
    let mut s = ControlState::new(0);
    let mut seen = Vec::new();
    for _ in 0..3 {
        assert_eq!(s.handle_event(RotaryEvent::Next, &blocks), EventOutcome::Moved);
        seen.push(s.active_index);
    }
    assert_eq!(seen, vec![1, 2, 0]);
}

#[test]
fn previous_from_zero_wraps_to_last() {
    let blocks = three();
    let mut s = ControlState::new(0);
    assert_eq!(s.handle_event(RotaryEvent::Previous, &blocks), EventOutcome::Moved);
    assert_eq!(s.active_index, 2);
    assert_eq!(s.handle_event(RotaryEvent::Previous, &blocks), EventOutcome::Moved);
    assert_eq!(s.active_index, 1);
}

#[test]
fn navigation_stays_in_range_on_a_long_run() {
    let blocks = three();
    let mut s = ControlState::new(0);
    let events = [
        RotaryEvent::Previous,
        RotaryEvent::Previous,
        RotaryEvent::Previous,
        RotaryEvent::Previous,
        RotaryEvent::Next,
        RotaryEvent::Activate,
        RotaryEvent::Next,
        RotaryEvent::Next,
    ];
    for e in events {
        s.handle_event(e, &blocks);
        assert!(s.active_index < blocks.len());
    }
    assert_eq!(s.active_index, 2);
}

#[test]
fn single_block_wraps_onto_itself() {
    let blocks = vec![block(false, 0)];
    let mut s = ControlState::new(0);
    s.handle_event(RotaryEvent::Next, &blocks);
    assert_eq!(s.active_index, 0);
    s.handle_event(RotaryEvent::Previous, &blocks);
    assert_eq!(s.active_index, 0);
}

#[test]
fn activate_with_button_disabled_changes_nothing() {
    let blocks = three();
    let mut s = ControlState::new(0);
    assert!(s.tick(&blocks[0], 100));
    let before = s;
    assert_eq!(s.handle_event(RotaryEvent::Activate, &blocks), EventOutcome::Ignored);
    assert_eq!(s, before);
    // Nothing is drawn again either.
    assert!(!s.tick(&blocks[0], 200));
}

#[test]
fn activate_with_button_enabled_asks_for_action() {
    let blocks = three();
    let mut s = ControlState::new(0);
    s.handle_event(RotaryEvent::Next, &blocks);
    assert!(s.tick(&blocks[1], 100));
    assert_eq!(s.handle_event(RotaryEvent::Activate, &blocks), EventOutcome::RunAction);
    assert_eq!(s.active_index, 1);
    assert!(!s.rendered);
    // The screen comes back after the action.
    assert!(s.tick(&blocks[1], 200));
}

#[test]
fn static_block_draws_once_per_visit() {
    let blocks = three();
    let mut s = ControlState::new(0);
    let mut count = 0;
    for t in 0..50u64 {
        if s.tick(&blocks[0], t * 100) {
            count += 1;
        }
    }
    assert_eq!(count, 1);
    // Leave and come back: drawn once more.
    s.handle_event(RotaryEvent::Next, &blocks);
    s.handle_event(RotaryEvent::Previous, &blocks);
    let mut again = 0;
    for t in 50..100u64 {
        if s.tick(&blocks[0], t * 100) {
            again += 1;
        }
    }
    assert_eq!(again, 1);
}

#[test]
fn periodic_block_draws_on_each_interval() {
    let b = block(false, 2);
    let mut s = ControlState::new(1000);
    assert!(!s.tick(&b, 1000));
    assert!(!s.tick(&b, 2999));
    assert!(s.tick(&b, 3000));
    assert_eq!(s.last_refresh_ms, 3000);
    assert!(!s.tick(&b, 4999));
    assert!(s.tick(&b, 5100));
    assert_eq!(s.last_refresh_ms, 5100);
}

#[test]
fn periodic_block_not_due_when_clock_is_behind() {
    let b = block(false, 1);
    let mut s = ControlState::new(10_000);
    assert!(!s.tick(&b, 5_000));
    assert_eq!(s.last_refresh_ms, 10_000);
}

#[test]
fn huge_interval_does_not_overflow() {
    let b = block(false, u64::MAX);
    let mut s = ControlState::new(0);
    assert!(!s.tick(&b, u64::MAX));
}
