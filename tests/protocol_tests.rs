use doggo_display::{
    high_nibble, init_sequence, join_nibbles, low_nibble, text_sequence, BusStep, BACKLIGHT,
    ENABLE, MODE_COMMAND, MODE_DATA,
};

fn nibble(n: u8, mode: u8) -> Vec<BusStep> {
    let data = n | mode | BACKLIGHT;
    vec![
        BusStep::Write(data | ENABLE),
        BusStep::Pause(500),
        BusStep::Write(data & !ENABLE),
        BusStep::Pause(100),
    ]
}

fn byte(b: u8, mode: u8) -> Vec<BusStep> {
    let mut v = nibble(b & 0xF0, mode);
    v.extend(nibble((b << 4) & 0xF0, mode));
    v
}

fn command(c: u8) -> Vec<BusStep> {
    let mut v = byte(c, MODE_COMMAND);
    v.push(BusStep::Pause(2000));
    v
}

#[test]
fn nibble_round_trip_every_byte() {
    for b in 0u8..=255 {
        assert_eq!(join_nibbles(high_nibble(b), low_nibble(b)), b);
    }
}

#[test]
fn nibble_halves_of_a5() {
    assert_eq!(high_nibble(0xA5), 0xA0);
    assert_eq!(low_nibble(0xA5), 0x50);
    assert_eq!(join_nibbles(0xA0, 0x50), 0xA5);
}

#[test]
fn strobe_frames_carry_backlight_and_mode() {
    let steps = text_sequence("A", "");
    // 'A' = 0x41: upper half 0x40, lower half 0x10, in data mode.
    let data: Vec<BusStep> = steps[19..27].to_vec();
    assert_eq!(
        data,
        vec![
            BusStep::Write(0x4D),
            BusStep::Pause(500),
            BusStep::Write(0x49),
            BusStep::Pause(100),
            BusStep::Write(0x1D),
            BusStep::Pause(500),
            BusStep::Write(0x19),
            BusStep::Pause(100),
        ]
    );
}

#[test]
fn init_sequence_exact() {
    let mut expected = vec![BusStep::Pause(50000)];
    for _ in 0..3 {
        expected.extend(nibble(0x30, MODE_COMMAND));
        expected.push(BusStep::Pause(5000));
    }
    expected.extend(nibble(0x20, MODE_COMMAND));
    for c in [0x28u8, 0x0C, 0x06, 0x01] {
        expected.extend(command(c));
    }
    assert_eq!(init_sequence(), expected);
    assert_eq!(init_sequence().len(), 56);
    assert_eq!(init_sequence()[1], BusStep::Write(0x3C));
    assert_eq!(init_sequence()[3], BusStep::Write(0x38));
}

#[test]
fn text_sequence_exact() {
    let mut expected = command(0x01);
    expected.push(BusStep::Pause(2000));
    expected.extend(command(0x80));
    expected.extend(byte(b'H', MODE_DATA));
    expected.extend(byte(b'i', MODE_DATA));
    expected.extend(command(0xC0));
    expected.extend(byte(b'!', MODE_DATA));
    assert_eq!(text_sequence("Hi", "!"), expected);
}

#[test]
fn empty_lines_still_clear_and_position() {
    let steps = text_sequence("", "");
    assert_eq!(steps.len(), 9 + 1 + 9 + 9);
    assert_eq!(steps[0], BusStep::Write(0x0C));
}

#[test]
fn long_lines_are_not_cut() {
    let line = "x".repeat(40);
    let steps = text_sequence(&line, "y");
    assert_eq!(steps.len(), 9 + 1 + 9 + 40 * 8 + 9 + 8);
}

#[test]
fn multibyte_text_goes_out_as_utf8_bytes() {
    let steps = text_sequence("é", "");
    let mut expected = command(0x01);
    expected.push(BusStep::Pause(2000));
    expected.extend(command(0x80));
    expected.extend(byte(0xC3, MODE_DATA));
    expected.extend(byte(0xA9, MODE_DATA));
    expected.extend(command(0xC0));
    assert_eq!(steps, expected);
}
