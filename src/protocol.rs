//! The byte protocol of an HD44780-style controller behind an 8-bit port
//! expander: every byte travels as two 4-bit halves, each strobed by the
//! enable bit, with the backlight bit always set.
use vstd::prelude::*;
use vstd::string::StringSliceAdditionalSpecFns;
use vstd::utf8::encode_utf8;

verus! {

/// Seven-bit bus address of the port expander.
pub const BUS_ADDRESS: u8 = 0x27;

/// Expander bit that keeps the backlight on.
pub const BACKLIGHT: u8 = 0x08;

/// Expander bit wired to the controller's enable (strobe) input.
pub const ENABLE: u8 = 0x04;

/// Register-select value for an instruction.
pub const MODE_COMMAND: u8 = 0x00;

/// Register-select value for a character.
pub const MODE_DATA: u8 = 0x01;

/// Strobe hold time after raising the enable bit, in microseconds.
pub const STROBE_HIGH_US: u32 = 500;

/// Hold time after lowering the enable bit, in microseconds.
pub const STROBE_LOW_US: u32 = 100;

/// Settle time after every instruction, in microseconds.
pub const COMMAND_SETTLE_US: u32 = 2000;

/// Power-on wait before the first transfer, in microseconds.
pub const POWER_ON_US: u32 = 50000;

/// Wait after each wake-up nibble, in microseconds.
pub const WAKE_SETTLE_US: u32 = 5000;

/// Instruction: clear the display.
pub const CMD_CLEAR: u8 = 0x01;

/// Instruction: move the cursor to the start of the first line.
pub const CMD_LINE_ONE: u8 = 0x80;

/// Instruction: move the cursor to the start of the second line.
pub const CMD_LINE_TWO: u8 = 0xC0;

/// One transfer on the bus, or a wait between transfers.
#[derive(Clone, Copy, Debug, PartialEq, Eq, Structural)]
pub enum BusStep {
    /// Write one byte to the expander.
    Write(u8),
    /// Wait at least this many microseconds.
    Pause(u32),
}

/// The upper half of a byte, in place.
pub open spec fn high_nibble_of(b: u8) -> u8 {
    b & 0xF0
}

/// The lower half of a byte, moved into the upper four bits.
pub open spec fn low_nibble_of(b: u8) -> u8 {
    (b << 4u8) & 0xF0
}

/// The byte whose halves are `hi` (upper four bits) and `lo` (upper four bits).
pub open spec fn joined(hi: u8, lo: u8) -> u8 {
    (hi & 0xF0) | (lo >> 4u8)
}

/// Splitting a byte into its two halves and joining them again gives the byte back.
pub proof fn lemma_nibble_round_trip(b: u8)
    ensures
        joined(high_nibble_of(b), low_nibble_of(b)) == b,
{
    assert(((b & 0xF0) & 0xF0) | (((b << 4u8) & 0xF0) >> 4u8) == b) by (bit_vector);
}

/// The upper half of `b`, kept in the upper four bits.
pub fn high_nibble(b: u8) -> (r: u8)
    ensures
        r == high_nibble_of(b),
{
    b & 0xF0
}

/// The lower half of `b`, moved into the upper four bits.
pub fn low_nibble(b: u8) -> (r: u8)
    ensures
        r == low_nibble_of(b),
{
    (b << 4u8) & 0xF0
}

/// The byte made of two halves, each given in the upper four bits.
pub fn join_nibbles(hi: u8, lo: u8) -> (r: u8)
    ensures
        r == joined(hi, lo),
{
    (hi & 0xF0) | (lo >> 4u8)
}

/// The steps that move one half-byte: raise the strobe with the data,
/// hold, lower the strobe, hold.
pub open spec fn nibble_steps(nibble: u8, mode: u8) -> Seq<BusStep> {
    seq![
        BusStep::Write(nibble | mode | BACKLIGHT | ENABLE),
        BusStep::Pause(STROBE_HIGH_US),
        BusStep::Write((nibble | mode | BACKLIGHT) & !ENABLE),
        BusStep::Pause(STROBE_LOW_US),
    ]
}

/// The steps that move one byte: upper half first, then lower half.
pub open spec fn byte_steps(b: u8, mode: u8) -> Seq<BusStep> {
    nibble_steps(high_nibble_of(b), mode) + nibble_steps(low_nibble_of(b), mode)
}

/// The steps of one instruction, followed by its settle time.
pub open spec fn command_steps(c: u8) -> Seq<BusStep> {
    byte_steps(c, MODE_COMMAND) + seq![BusStep::Pause(COMMAND_SETTLE_US)]
}

/// The steps that send each byte of `bytes` as a character, in order.
pub open spec fn data_steps(bytes: Seq<u8>) -> Seq<BusStep>
    decreases bytes.len(),
{
    if bytes.len() == 0 {
        Seq::empty()
    } else {
        data_steps(bytes.drop_last()) + byte_steps(bytes.last(), MODE_DATA)
    }
}

/// The power-on sequence: three wake-up nibbles that bring the controller
/// into a known 8-bit state whatever it was in, the switch to 4-bit
/// transfers, then two lines with a 5x8 font, display on with the cursor
/// off, left-to-right entry, and a clear.
pub open spec fn init_steps() -> Seq<BusStep> {
    seq![BusStep::Pause(POWER_ON_US)]
        + nibble_steps(0x30, MODE_COMMAND) + seq![BusStep::Pause(WAKE_SETTLE_US)]
        + nibble_steps(0x30, MODE_COMMAND) + seq![BusStep::Pause(WAKE_SETTLE_US)]
        + nibble_steps(0x30, MODE_COMMAND) + seq![BusStep::Pause(WAKE_SETTLE_US)]
        + nibble_steps(0x20, MODE_COMMAND)
        + command_steps(0x28)
        + command_steps(0x0C)
        + command_steps(0x06)
        + command_steps(CMD_CLEAR)
}

/// The steps that show two lines: clear, first line at its address, second
/// line at its address. The bytes go out as given, with no cut or wrap.
pub open spec fn text_steps(line1: Seq<u8>, line2: Seq<u8>) -> Seq<BusStep> {
    command_steps(CMD_CLEAR) + seq![BusStep::Pause(COMMAND_SETTLE_US)]
        + command_steps(CMD_LINE_ONE) + data_steps(line1)
        + command_steps(CMD_LINE_TWO) + data_steps(line2)
}

fn push_nibble(steps: &mut Vec<BusStep>, nibble: u8, mode: u8)
    ensures
        final(steps)@ == old(steps)@ + nibble_steps(nibble, mode),
{
    let data = nibble | mode | BACKLIGHT;
    steps.push(BusStep::Write(data | ENABLE));
    steps.push(BusStep::Pause(STROBE_HIGH_US));
    steps.push(BusStep::Write(data & !ENABLE));
    steps.push(BusStep::Pause(STROBE_LOW_US));
    assert(final(steps)@ =~= old(steps)@ + nibble_steps(nibble, mode));
}

fn push_byte(steps: &mut Vec<BusStep>, b: u8, mode: u8)
    ensures
        final(steps)@ == old(steps)@ + byte_steps(b, mode),
{
    push_nibble(steps, high_nibble(b), mode);
    push_nibble(steps, low_nibble(b), mode);
    assert(final(steps)@ =~= old(steps)@ + byte_steps(b, mode));
}

fn push_command(steps: &mut Vec<BusStep>, c: u8)
    ensures
        final(steps)@ == old(steps)@ + command_steps(c),
{
    push_byte(steps, c, MODE_COMMAND);
    steps.push(BusStep::Pause(COMMAND_SETTLE_US));
    assert(final(steps)@ =~= old(steps)@ + command_steps(c));
}

fn push_data(steps: &mut Vec<BusStep>, bytes: &[u8])
    ensures
        final(steps)@ == old(steps)@ + data_steps(bytes@),
{
    let ghost start = steps@;
    let mut i: usize = 0;
    while i < bytes.len()
        invariant
            i <= bytes@.len(),
            steps@ == start + data_steps(bytes@.take(i as int)),
        decreases bytes@.len() - i,
    {
        let ghost before = steps@;
        push_byte(steps, bytes[i], MODE_DATA);
        proof {
            let next = bytes@.take(i + 1);
            assert(next.drop_last() =~= bytes@.take(i as int));
            assert(next.last() == bytes@[i as int]);
            assert(steps@ =~= start + data_steps(next));
        }
        i = i + 1;
    }
    assert(bytes@.take(i as int) =~= bytes@);
}

/// The power-on sequence of the controller, as bus steps.
pub fn init_sequence() -> (r: Vec<BusStep>)
    ensures
        r@ == init_steps(),
{
    let mut steps: Vec<BusStep> = Vec::new();
    steps.push(BusStep::Pause(POWER_ON_US));
    push_nibble(&mut steps, 0x30, MODE_COMMAND);
    steps.push(BusStep::Pause(WAKE_SETTLE_US));
    push_nibble(&mut steps, 0x30, MODE_COMMAND);
    steps.push(BusStep::Pause(WAKE_SETTLE_US));
    push_nibble(&mut steps, 0x30, MODE_COMMAND);
    steps.push(BusStep::Pause(WAKE_SETTLE_US));
    push_nibble(&mut steps, 0x20, MODE_COMMAND);
    push_command(&mut steps, 0x28);
    push_command(&mut steps, 0x0C);
    push_command(&mut steps, 0x06);
    push_command(&mut steps, CMD_CLEAR);
    assert(steps@ =~= init_steps());
    steps
}

/// The bus steps that replace the screen with two lines of text, sent byte
/// for byte in their UTF-8 encoding.
pub fn text_sequence(line1: &str, line2: &str) -> (r: Vec<BusStep>)
    ensures
        r@ == text_steps(encode_utf8(line1@), encode_utf8(line2@)),
{
    let mut steps: Vec<BusStep> = Vec::new();
    push_command(&mut steps, CMD_CLEAR);
    steps.push(BusStep::Pause(COMMAND_SETTLE_US));
    push_command(&mut steps, CMD_LINE_ONE);
    push_data(&mut steps, line1.as_bytes());
    push_command(&mut steps, CMD_LINE_TWO);
    push_data(&mut steps, line2.as_bytes());
    assert(steps@ =~= text_steps(line1.spec_bytes(), line2.spec_bytes()));
    steps
}

} // verus!
