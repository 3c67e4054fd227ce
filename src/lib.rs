//! Control logic for a two-line character display driven over an I2C port
//! expander, navigated with a rotary encoder and its push button.

mod block;
mod control;
mod display;
mod encoder;
mod protocol;

pub use protocol::{
    byte_steps, command_steps, data_steps, high_nibble, high_nibble_of, init_sequence, init_steps,
    join_nibbles, joined, low_nibble_of,
    low_nibble, nibble_steps, text_sequence, text_steps, lemma_nibble_round_trip, BusStep,
    BACKLIGHT, BUS_ADDRESS, ENABLE, MODE_COMMAND, MODE_DATA,
};
pub use display::{ran, Display, DriverError};
pub use block::{
    command_of, is_directive, line_source, resolve_line, resolved, Config, DisplayBlock,
    HardwareConfig, LineSource, DIRECTIVE_MARK,
};
pub use encoder::{press, rotation, sample_events, EncoderState, RotaryEvent, SAMPLE_INTERVAL_MS};
pub use control::{
    draws, due, index_after, index_after_all, lemma_index_in_range,
    lemma_periodic_draws_on_interval, lemma_static_draws_once, show_action, tick_next, update_display,
    ControlState, EventOutcome, ACTION_DWELL_MS, ACTION_TITLE, EMPTY_CONFIG_BOTTOM,
    EMPTY_CONFIG_TOP, TICK_INTERVAL_MS,
};
