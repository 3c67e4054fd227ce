//! The configured screens and how their lines are resolved.
use vstd::prelude::*;

verus! {

/// Leading character that marks a line as a command to run.
pub const DIRECTIVE_MARK: char = '!';

/// Whether a configured line is a command to run rather than text.
pub open spec fn is_directive(raw: Seq<char>) -> bool {
    raw.len() > 0 && raw[0] == DIRECTIVE_MARK
}

/// The command of a directive line: everything after the mark.
pub open spec fn command_of(raw: Seq<char>) -> Seq<char> {
    raw.subrange(1, raw.len() as int)
}

/// `r` is what a configured line shows: its text, or what `run` gave back
/// for its command.
pub open spec fn resolved<F: Fn(&str) -> String>(raw: Seq<char>, run: F, r: String) -> bool {
    if is_directive(raw) {
        exists|c: &str| c@ == command_of(raw) && #[trigger] run.ensures((c,), r)
    } else {
        r@ == raw
    }
}

/// A configured line, told apart by its leading mark.
#[derive(Clone, Debug)]
pub enum LineSource {
    /// Text shown as it stands.
    Literal(String),
    /// A command whose output is shown.
    Command(String),
}

/// Tells a configured line's text from a command: a line that starts with
/// the mark is the command after it.
pub fn line_source(raw: &str) -> (r: LineSource)
    ensures
        is_directive(raw@) ==> (r matches LineSource::Command(c) && c@ == command_of(raw@)),
        !is_directive(raw@) ==> (r matches LineSource::Literal(t) && t@ == raw@),
{
    let n = raw.unicode_len();
    if n > 0 && raw.get_char(0) == DIRECTIVE_MARK {
        LineSource::Command(raw.substring_char(1, n).to_owned())
    } else {
        LineSource::Literal(raw.to_owned())
    }
}

/// Resolves a configured line: its text, or the output of `run` on its
/// command.
pub fn resolve_line<F: Fn(&str) -> String>(raw: &str, run: &F) -> (r: String)
    requires
        forall|c: &str| #[trigger] run.requires((c,)),
    ensures
        resolved(raw@, *run, r),
{
    match line_source(raw) {
        LineSource::Command(c) => {
            let out = run(c.as_str());
            out
        },
        LineSource::Literal(t) => t,
    }
}

/// One configured screen.
#[derive(Clone, Debug)]
pub struct DisplayBlock {
    /// First line: text, or a command after the mark.
    pub top_line: String,
    /// Second line: text, or a command after the mark.
    pub second_line: String,
    /// Whether a press runs `function_to_run`.
    pub button_enabled: bool,
    /// Command run on a press.
    pub function_to_run: String,
    /// Seconds between refreshes; 0 shows the screen once per visit.
    pub refresh_interval: u64,
}

impl DisplayBlock {
    /// The first line as shown now, running its command through `run` if
    /// it is one.
    pub fn get_top_line<F: Fn(&str) -> String>(&self, run: &F) -> (r: String)
        requires
            forall|c: &str| #[trigger] run.requires((c,)),
        ensures
            resolved(self.top_line@, *run, r),
    {
        resolve_line(self.top_line.as_str(), run)
    }

    /// The second line as shown now, running its command through `run` if
    /// it is one.
    pub fn get_second_line<F: Fn(&str) -> String>(&self, run: &F) -> (r: String)
        requires
            forall|c: &str| #[trigger] run.requires((c,)),
        ensures
            resolved(self.second_line@, *run, r),
    {
        resolve_line(self.second_line.as_str(), run)
    }
}

/// Where the hardware is attached.
#[derive(Clone, Debug)]
pub struct HardwareConfig {
    /// Path of the I2C bus device.
    pub i2c_bus: String,
    /// Path of the GPIO chip device.
    pub chip: String,
    /// Line of the encoder's A phase.
    pub clk: u32,
    /// Line of the encoder's B phase.
    pub dt: u32,
    /// Line of the push button.
    pub sw: u32,
}

/// The whole configuration: the screens in order, and the hardware.
#[derive(Clone, Debug)]
pub struct Config {
    pub blocks: Vec<DisplayBlock>,
    pub hardware: HardwareConfig,
}

} // verus!
