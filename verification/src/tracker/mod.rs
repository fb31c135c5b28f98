//! The face tracker: its options, its control messages, and the line protocol
//! through which it sends reports.
use vstd::prelude::*;

pub mod report;

pub use report::{FloatSource, QuatSource, TrackingReport, Vec2Source};

verus! {

/// The byte that ends each line that the tracker and this program exchange.
pub const NEWLINE: u8 = 10u8;

/// Appends one character to a string.
///
/// Trusted: wraps `String::push`; its documentation says that the character is
/// appended at the end of the string.
#[verifier::external_body]
fn push_char(s: &mut String, c: char)
    ensures
        final(s)@ == old(s)@.push(c),
{
    s.push(c)
}

/// The decimal digit character of `d` (`d < 10`).
pub open spec fn digit_char(d: nat) -> char {
    (48 + d) as char
}

/// The decimal notation of `n`, most significant digit first, without leading zeros.
pub open spec fn decimal(n: nat) -> Seq<char>
    decreases n,
{
    if n < 10 {
        seq![digit_char(n)]
    } else {
        decimal(n / 10).push(digit_char(n % 10))
    }
}

/// The number that a string of decimal digits denotes.
pub open spec fn decimal_value(s: Seq<char>) -> int
    decreases s.len(),
{
    if s.len() == 0 {
        0
    } else {
        decimal_value(s.drop_last()) * 10 + (s.last() as int - 48)
    }
}

/// Reading back the decimal notation of a number gives that number.
pub proof fn lemma_decimal_roundtrip(n: nat)
    ensures
        decimal_value(decimal(n)) == n,
        decimal(n).len() >= 1,
        forall|i: int| 0 <= i < decimal(n).len() ==> '0' <= #[trigger] decimal(n)[i] <= '9',
    decreases n,
{
    let d = n % 10;
    assert(digit_char(d) as int == 48 + d);
    if n >= 10 {
        lemma_decimal_roundtrip(n / 10);
        assert(decimal(n).drop_last() =~= decimal(n / 10));
        assert(decimal(n).last() == digit_char(d));
    } else {
        assert(decimal(n).drop_last() =~= Seq::<char>::empty());
        assert(decimal_value(Seq::<char>::empty()) == 0);
    }
}

/// Appends the decimal notation of `n` to `s`.
fn push_decimal(s: &mut String, n: u8)
    ensures
        final(s)@ == old(s)@ + decimal(n as nat),
{
    if n >= 100 {
        push_char(s, ((n / 100) + 48) as char);
    }
    if n >= 10 {
        push_char(s, (((n / 10) % 10) + 48) as char);
    }
    push_char(s, ((n % 10) + 48) as char);
    proof {
        let a = n as nat;
        if a >= 100 {
            assert(decimal(a / 100) == seq![digit_char(a / 100)]);
            assert(decimal(a / 10) == decimal(a / 100).push(digit_char((a / 10) % 10)));
        } else if a >= 10 {
            assert(decimal(a / 10) == seq![digit_char(a / 10)]);
        }
        assert(s@ =~= old(s)@ + decimal(a));
    }
}

/// How the tracker process is started: which camera it watches, and whether it shows
/// the features it detects.
#[derive(Debug, Clone, Copy, PartialEq, Eq, Structural)]
pub struct TrackerOptions {
    camera_index: u8,
    show_features: bool,
}

/// The command-line argument that selects the camera.
pub open spec fn camera_argument(camera_index: u8) -> Seq<char> {
    "--camera="@ + decimal(camera_index as nat)
}

/// The command-line argument that makes the tracker show the detected features.
pub open spec fn show_features_argument() -> Seq<char> {
    "--show-features"@
}

impl TrackerOptions {
    pub closed spec fn spec_camera_index(self) -> u8 {
        self.camera_index
    }

    pub closed spec fn spec_show_features(self) -> bool {
        self.show_features
    }

    /// Options for the camera with index `camera_index`.
    pub fn new(camera_index: u8, show_features: bool) -> (options: TrackerOptions)
        ensures
            options.spec_camera_index() == camera_index,
            options.spec_show_features() == show_features,
    {
        TrackerOptions { camera_index, show_features }
    }

    /// The arguments that pass these options to the tracker program: the camera
    /// argument, then the show-features flag where it is asked for.
    pub fn arguments(&self) -> (args: Vec<String>)
        ensures
            args.len() == if self.spec_show_features() { 2int } else { 1int },
            args[0]@ == camera_argument(self.spec_camera_index()),
            self.spec_show_features() ==> args[1]@ == show_features_argument(),
    {
        let mut camera = "--camera=".to_string();
        push_decimal(&mut camera, self.camera_index);
        let mut args: Vec<String> = Vec::new();
        args.push(camera);
        if self.show_features {
            args.push("--show-features".to_string());
        }
        args
    }
}

/// A request that the rest of the program sends to the running tracker.
#[derive(Debug, Clone, Copy, PartialEq, Eq, Structural)]
pub enum ControlMessage {
    /// Take the current head pose as the neutral one.
    Calibrate,
    /// Stop tracking.
    Die,
}

/// What to do with the tracker process for a control message.
#[derive(Debug, PartialEq, Eq)]
pub enum TrackerInstruction {
    /// Write this text to the tracker's standard input.
    Write(String),
    /// Stop reading reports.
    Stop,
}

/// The command that asks the tracker to calibrate.
pub open spec fn calibrate_command() -> Seq<char> {
    "calibrate\n"@
}

/// What a control message asks of the tracker process.
pub fn instruction_for(message: ControlMessage) -> (instruction: TrackerInstruction)
    ensures
        message == ControlMessage::Calibrate ==> (instruction matches TrackerInstruction::Write(
            text,
        ) && text@ == calibrate_command()),
        message == ControlMessage::Die ==> instruction == TrackerInstruction::Stop,
{
    match message {
        ControlMessage::Calibrate => TrackerInstruction::Write("calibrate\n".to_string()),
        ControlMessage::Die => TrackerInstruction::Stop,
    }
}

/// What a byte read from the tracker's output does to the line being read.
#[derive(Debug, PartialEq, Eq)]
pub enum LineStep {
    /// The byte was part of the line; keep reading.
    Continue,
    /// An empty line ended; acknowledge it and keep reading.
    Empty,
    /// A line with this text ended; acknowledge it and decode it as a report.
    Line(String),
}

/// Assembles the lines that the tracker writes, one byte at a time.
pub struct LineReader {
    line: String,
}

impl LineReader {
    /// The characters of the line read so far.
    pub closed spec fn pending(&self) -> Seq<char> {
        self.line@
    }

    /// A reader at the start of a line.
    pub fn new() -> (reader: LineReader)
        ensures
            reader.pending() == Seq::<char>::empty(),
    {
        LineReader { line: String::new() }
    }

    /// Takes one byte of the tracker's output. A newline ends the line read so far,
    /// and the reader starts a new one; any other byte is added to the line.
    pub fn accept(&mut self, byte: u8) -> (step: LineStep)
        ensures
            byte != NEWLINE ==> step == LineStep::Continue && final(self).pending() == old(
                self,
            ).pending().push(byte as char),
            byte == NEWLINE ==> final(self).pending() == Seq::<char>::empty(),
            byte == NEWLINE && old(self).pending().len() == 0 ==> step == LineStep::Empty,
            byte == NEWLINE && old(self).pending().len() > 0 ==> (step matches LineStep::Line(
                text,
            ) && text@ == old(self).pending()),
    {
        if byte == NEWLINE {
            let mut line = String::new();
            std::mem::swap(&mut line, &mut self.line);
            if line.as_str().is_empty() {
                LineStep::Empty
            } else {
                LineStep::Line(line)
            }
        } else {
            push_char(&mut self.line, byte as char);
            LineStep::Continue
        }
    }
}

} // verus!
