//! Turns samples of the rotary encoder's two phase lines and its push button
//! into navigation and activation events.
use vstd::prelude::*;

verus! {

/// How often the lines are sampled, in milliseconds. The interval is also
/// the only debounce window.
pub const SAMPLE_INTERVAL_MS: u64 = 10;

/// What the user did on the encoder.
#[derive(Clone, Copy, Debug, PartialEq, Eq, Structural)]
pub enum RotaryEvent {
    /// One detent clockwise.
    Next,
    /// One detent counter-clockwise.
    Previous,
    /// The button went down.
    Activate,
}

/// The rotation seen between two samples: a tick on each rising edge of the
/// A line, clockwise when B is low at that sample, counter-clockwise when it
/// is high. Levels are `true` for high.
pub open spec fn rotation(last_a: bool, a: bool, b: bool) -> Seq<RotaryEvent> {
    if a && !last_a {
        if b {
            seq![RotaryEvent::Previous]
        } else {
            seq![RotaryEvent::Next]
        }
    } else {
        Seq::empty()
    }
}

/// The press seen between two samples: the button line falling from high
/// (released) to low (pressed). Release and a steady level give nothing.
pub open spec fn press(last_button: bool, button: bool) -> Seq<RotaryEvent> {
    if last_button && !button {
        seq![RotaryEvent::Activate]
    } else {
        Seq::empty()
    }
}

/// All events of one sample, rotation first.
pub open spec fn sample_events(last_a: bool, last_button: bool, a: bool, b: bool, button: bool) -> Seq<
    RotaryEvent,
> {
    rotation(last_a, a, b) + press(last_button, button)
}

/// The levels of the A line and of the button line at the previous sample.
#[derive(Clone, Copy, Debug, PartialEq, Eq, Structural)]
pub struct EncoderState {
    pub last_a: bool,
    pub last_button: bool,
}

impl EncoderState {
    /// Starts from a first sample of the A line and the button line.
    pub fn new(a: bool, button: bool) -> (r: Self)
        ensures
            r.last_a == a,
            r.last_button == button,
    {
        EncoderState { last_a: a, last_button: button }
    }

    /// Takes one sample of the three lines and returns its events in order.
    pub fn sample(&mut self, a: bool, b: bool, button: bool) -> (r: Vec<RotaryEvent>)
        ensures
            r@ == sample_events(old(self).last_a, old(self).last_button, a, b, button),
            final(self).last_a == a,
            final(self).last_button == button,
    {
        let mut events: Vec<RotaryEvent> = Vec::new();
        if a != self.last_a {
            if a {
                if b {
                    events.push(RotaryEvent::Previous);
                } else {
                    events.push(RotaryEvent::Next);
                }
            }
            self.last_a = a;
        }
        if !button && self.last_button {
            events.push(RotaryEvent::Activate);
        }
        self.last_button = button;
        proof {
            assert(events@ =~= sample_events(old(self).last_a, old(self).last_button, a, b, button));
        }
        events
    }
}

} // verus!
