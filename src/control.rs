//! The control loop's decisions: which screen is active, when it is drawn,
//! and what a press does.
use crate::block::{resolved, DisplayBlock};
use crate::display::{ran, Display, DriverError};
use crate::encoder::RotaryEvent;
use crate::protocol::text_steps;
use vstd::prelude::*;
use vstd::utf8::encode_utf8;

verus! {

/// How often the loop ticks, in milliseconds.
pub const TICK_INTERVAL_MS: u64 = 100;

/// How long the result of a press stays on screen, in milliseconds.
pub const ACTION_DWELL_MS: u64 = 2000;

/// First line of the screen that shows what a press ran.
pub const ACTION_TITLE: &'static str = "Button Pressed";

/// First line of the screen shown when no block is configured.
pub const EMPTY_CONFIG_TOP: &'static str = "No config";

/// Second line of the screen shown when no block is configured.
pub const EMPTY_CONFIG_BOTTOM: &'static str = "found";

/// The active index after one event among `len` screens: forward and back
/// wrap around, a press leaves it.
pub open spec fn index_after(index: int, len: int, event: RotaryEvent) -> int {
    match event {
        RotaryEvent::Next => (index + 1) % len,
        RotaryEvent::Previous => (index + len - 1) % len,
        RotaryEvent::Activate => index,
    }
}

/// The active index after a run of events, in order.
pub open spec fn index_after_all(index: int, len: int, events: Seq<RotaryEvent>) -> int
    decreases events.len(),
{
    if events.len() == 0 {
        index
    } else {
        index_after(index_after_all(index, len, events.drop_last()), len, events.last())
    }
}

/// Whether a periodic screen is due: its interval is set and at least that
/// many seconds have passed since it was last drawn.
pub open spec fn due(interval_secs: u64, last_ms: u64, now_ms: u64) -> bool {
    interval_secs > 0 && now_ms - last_ms >= interval_secs * 1000
}

/// What the loop does with an event.
#[derive(Clone, Copy, Debug, PartialEq, Eq, Structural)]
pub enum EventOutcome {
    /// The active screen changed.
    Moved,
    /// Run the active screen's command and show its output.
    RunAction,
    /// Nothing to do.
    Ignored,
}

/// The loop's own state.
#[derive(Clone, Copy, Debug, PartialEq, Eq, Structural)]
pub struct ControlState {
    /// Index of the screen shown.
    pub active_index: usize,
    /// When the active screen was last drawn by a periodic refresh, in
    /// milliseconds on the caller's monotonic clock.
    pub last_refresh_ms: u64,
    /// Whether a screen that is drawn once has been drawn since it became
    /// active.
    pub rendered: bool,
}

/// One tick of the loop: the state that follows `before`, and whether the
/// active screen is drawn now.
pub open spec fn tick_next(before: ControlState, interval_secs: u64, now_ms: u64) -> (ControlState, bool) {
    if due(interval_secs, before.last_refresh_ms, now_ms) {
        (ControlState { last_refresh_ms: now_ms, ..before }, true)
    } else if interval_secs == 0 && !before.rendered {
        (ControlState { rendered: true, ..before }, true)
    } else {
        (before, false)
    }
}

/// How many times the active screen is drawn over ticks at the times in
/// `times`, in order, starting from `s`.
pub open spec fn draws(s: ControlState, interval_secs: u64, times: Seq<u64>) -> nat
    decreases times.len(),
{
    if times.len() == 0 {
        0
    } else {
        let (next, drawn) = tick_next(s, interval_secs, times[0]);
        (if drawn { 1nat } else { 0nat }) + draws(next, interval_secs, times.drop_first())
    }
}

/// However many events of any kind arrive, the active index stays among
/// the screens, wrapping around both ways.
pub proof fn lemma_index_in_range(index: int, len: int, events: Seq<RotaryEvent>)
    requires
        0 <= index < len,
    ensures
        0 <= index_after_all(index, len, events) < len,
    decreases events.len(),
{
    if events.len() > 0 {
        lemma_index_in_range(index, len, events.drop_last());
    }
}

/// A screen with no refresh interval is drawn exactly once per visit: over
/// any run of ticks that starts when it becomes active, once if there is a
/// tick at all, and never again once drawn.
pub proof fn lemma_static_draws_once(s: ControlState, times: Seq<u64>)
    ensures
        draws(s, 0, times) == (if times.len() > 0 && !s.rendered { 1nat } else { 0nat }),
    decreases times.len(),
{
    if times.len() > 0 {
        let (next, drawn) = tick_next(s, 0, times[0]);
        lemma_static_draws_once(next, times.drop_first());
    }
}

/// A screen with a refresh interval of `interval_secs > 0` is drawn at a
/// tick exactly when that many seconds have passed since its last refresh,
/// and the refresh clock then restarts at that tick; otherwise the tick
/// changes nothing.
pub proof fn lemma_periodic_draws_on_interval(s: ControlState, interval_secs: u64, now_ms: u64)
    requires
        interval_secs > 0,
    ensures
        tick_next(s, interval_secs, now_ms).1 <==> now_ms - s.last_refresh_ms >= interval_secs * 1000,
        tick_next(s, interval_secs, now_ms).1 ==> tick_next(s, interval_secs, now_ms).0
            == (ControlState { last_refresh_ms: now_ms, ..s }),
        !tick_next(s, interval_secs, now_ms).1 ==> tick_next(s, interval_secs, now_ms).0 == s,
{
}

impl ControlState {
    /// Whether the state fits a list of `len` screens.
    pub open spec fn fits(&self, len: nat) -> bool {
        self.active_index < len
    }

    /// The first screen, not drawn yet, with its refresh clock at `now_ms`.
    pub fn new(now_ms: u64) -> (r: Self)
        ensures
            r.active_index == 0,
            r.last_refresh_ms == now_ms,
            !r.rendered,
    {
        ControlState { active_index: 0, last_refresh_ms: now_ms, rendered: false }
    }

    /// Applies one event. Turning moves to the next or previous screen,
    /// wrapping around, and marks it not drawn. A press on a screen whose
    /// button is enabled asks for its command to run and for the screen to
    /// be drawn again afterwards; on any other screen it changes nothing.
    pub fn handle_event(&mut self, event: RotaryEvent, blocks: &[DisplayBlock]) -> (r: EventOutcome)
        requires
            old(self).fits(blocks@.len()),
        ensures
            final(self).fits(blocks@.len()),
            final(self).active_index == index_after(
                old(self).active_index as int,
                blocks@.len() as int,
                event,
            ),
            final(self).last_refresh_ms == old(self).last_refresh_ms,
            event != RotaryEvent::Activate ==> r == EventOutcome::Moved && !final(self).rendered,
            event == RotaryEvent::Activate && blocks@[old(self).active_index as int].button_enabled
                ==> r == EventOutcome::RunAction && !final(self).rendered,
            event == RotaryEvent::Activate && !blocks@[old(self).active_index as int].button_enabled
                ==> r == EventOutcome::Ignored && *final(self) == *old(self),
    {
        let len = blocks.len();
        match event {
            RotaryEvent::Next => {
                self.active_index = (self.active_index + 1) % len;
                self.rendered = false;
                EventOutcome::Moved
            },
            RotaryEvent::Previous => {
                if self.active_index == 0 {
                    self.active_index = len - 1;
                } else {
                    self.active_index = self.active_index - 1;
                }
                proof {
                    let i = old(self).active_index as int;
                    let n = len as int;
                    if i == 0 {
                        assert((i + n - 1) % n == n - 1) by {
                            vstd::arithmetic::div_mod::lemma_small_mod((n - 1) as nat, n as nat);
                        }
                    } else {
                        assert((i + n - 1) % n == i - 1) by {
                            vstd::arithmetic::div_mod::lemma_mod_add_multiples_vanish(i - 1, n);
                            vstd::arithmetic::div_mod::lemma_small_mod((i - 1) as nat, n as nat);
                        }
                    }
                }
                self.rendered = false;
                EventOutcome::Moved
            },
            RotaryEvent::Activate => {
                if blocks[self.active_index].button_enabled {
                    self.rendered = false;
                    EventOutcome::RunAction
                } else {
                    EventOutcome::Ignored
                }
            },
        }
    }

    /// One tick at `now_ms` for the active screen `block`. A periodic
    /// screen is drawn when its interval has passed since its last refresh,
    /// which then restarts at `now_ms`; a screen with no interval is drawn
    /// once after it becomes active. Returns whether to draw now.
    pub fn tick(&mut self, block: &DisplayBlock, now_ms: u64) -> (r: bool)
        ensures
            (*final(self), r) == tick_next(*old(self), block.refresh_interval, now_ms),
    {
        let interval = block.refresh_interval;
        let is_due = interval > 0 && now_ms >= self.last_refresh_ms
            && (now_ms - self.last_refresh_ms) as u128 >= (interval as u128) * 1000;
        if is_due {
            self.last_refresh_ms = now_ms;
            true
        } else if interval == 0 && !self.rendered {
            self.rendered = true;
            true
        } else {
            false
        }
    }
}

/// Draws a screen: resolves both lines, running their commands through
/// `run`, and writes them on the display.
pub fn update_display<F: Fn(&str) -> String>(
    display: &mut Display,
    block: &DisplayBlock,
    run: &F,
) -> (r: Result<(), DriverError>)
    requires
        forall|c: &str| #[trigger] run.requires((c,)),
    ensures
        exists|top: String, second: String|
            resolved(block.top_line@, *run, top) && resolved(block.second_line@, *run, second)
                && ran(
                old(display).completed(),
                final(display).completed(),
                text_steps(encode_utf8(top@), encode_utf8(second@)),
                r is Ok,
            ),
        final(display).ready() == old(display).ready(),
{
    let top = block.get_top_line(run);
    let second = block.get_second_line(run);
    display.write_text(top.as_str(), second.as_str())
}

/// Shows what a press ran: runs the screen's command through `run` and
/// writes the title line above its output.
pub fn show_action<F: Fn(&str) -> String>(
    display: &mut Display,
    block: &DisplayBlock,
    run: &F,
) -> (r: Result<(), DriverError>)
    requires
        forall|c: &str| #[trigger] run.requires((c,)),
    ensures
        exists|c: &str, out: String|
            c@ == block.function_to_run@ && #[trigger] run.ensures((c,), out) && ran(
                old(display).completed(),
                final(display).completed(),
                text_steps(encode_utf8(ACTION_TITLE@), encode_utf8(out@)),
                r is Ok,
            ),
        final(display).ready() == old(display).ready(),
{
    let command = block.function_to_run.as_str();
    let out = run(command);
    display.write_text(ACTION_TITLE, out.as_str())
}

} // verus!
