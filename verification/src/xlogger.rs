//! The log sink: lines with a time stamp and a level, kept in the order in
//! which they were logged until the reader takes them.

use crate::text::{chars_of, contains, decimal, decimal_chars, starts_with, string_from_chars, occurs_in};
use vstd::prelude::*;

verus! {

/// How grave a line is.
#[derive(Clone, Copy, Debug, PartialEq, Eq, Structural)]
pub enum Level {
    Error,
    Warn,
    Info,
    Debug,
    Trace,
}

impl Level {
    /// The level's name, filled up to five characters.
    pub open spec fn label(self) -> Seq<char> {
        match self {
            Level::Error => "ERROR"@,
            Level::Warn => "WARN "@,
            Level::Info => "INFO "@,
            Level::Debug => "DEBUG"@,
            Level::Trace => "TRACE"@,
        }
    }

    /// The level's name, filled up to five characters.
    pub fn name(&self) -> (s: &'static str)
        ensures
            s@ == self.label(),
    {
        match self {
            Level::Error => "ERROR",
            Level::Warn => "WARN ",
            Level::Info => "INFO ",
            Level::Debug => "DEBUG",
            Level::Trace => "TRACE",
        }
    }
}

/// What is logged: where it comes from, how grave it is, and the message.
#[derive(Clone, Debug, PartialEq, Eq)]
pub struct Record {
    pub target: String,
    pub file: Option<String>,
    pub line: Option<u32>,
    pub level: Level,
    pub args: String,
}

/// The colour in which a line is shown.
#[derive(Clone, Copy, Debug, PartialEq, Eq, Structural)]
pub enum LogColor {
    Blue,
    Yellow,
    LightRed,
    DarkGray,
    LightGray,
}

/// `s` cut or filled with spaces at its end to exactly `width` characters.
pub open spec fn fitted(s: Seq<char>, width: nat) -> Seq<char> {
    if s.len() >= width {
        s.take(width as int)
    } else {
        s + Seq::new((width - s.len()) as nat, |i: int| ' ')
    }
}

/// The numeral of `n`, with zeros in front up to `width` characters.
pub open spec fn zero_padded(n: nat, width: nat) -> Seq<char> {
    if decimal(n).len() >= width {
        decimal(n)
    } else {
        Seq::new((width - decimal(n).len()) as nat, |i: int| '0') + decimal(n)
    }
}

/// The text of the file name in a record, empty where there is none.
pub open spec fn file_text(file: Option<String>) -> Seq<char> {
    match file {
        Some(f) => f@,
        None => Seq::empty(),
    }
}

/// The line number in a record, zero where there is none.
pub open spec fn line_number(line: Option<u32>) -> nat {
    match line {
        Some(n) => n as nat,
        None => 0,
    }
}

/// The line for a record that was logged at the time `stamp`:
/// `<stamp> [<file, 16 wide>][<line, 3 digits>][<level, 5 wide>]<tab><message>`.
pub open spec fn log_line(stamp: Seq<char>, r: Record) -> Seq<char> {
    stamp + " ["@ + fitted(file_text(r.file), 16) + "]["@ + zero_padded(line_number(r.line), 3)
        + "]["@ + r.level.label() + "]\t"@ + r.args@
}

/// The target prefix of the records that are logged.
pub open spec fn own_target() -> Seq<char> {
    "udptcp"@
}

/// The colour of a line: data lines stand out, then errors.
pub open spec fn line_color(line: Seq<char>, dark: bool) -> LogColor {
    if occurs_in(line, "SEND"@) || occurs_in(line, "RECV"@) {
        if dark {
            LogColor::Yellow
        } else {
            LogColor::Blue
        }
    } else if occurs_in(line, "ERR"@) {
        LogColor::LightRed
    } else if dark {
        LogColor::LightGray
    } else {
        LogColor::DarkGray
    }
}

/// The characters of `s` cut or filled to `width`.
pub fn fit(s: &str, width: usize) -> (v: Vec<char>)
    ensures
        v@ == fitted(s@, width as nat),
{
    let chars = chars_of(s);
    let mut v: Vec<char> = Vec::new();
    let mut i: usize = 0;
    while i < width
        invariant
            i <= width,
            chars@ == s@,
            v@.len() == i,
            forall|j: int| 0 <= j < i ==> v@[j] == fitted(s@, width as nat)[j],
        decreases width - i,
    {
        if i < chars.len() {
            v.push(chars[i]);
        } else {
            v.push(' ');
        }
        i = i + 1;
    }
    proof {
        assert(v@ =~= fitted(s@, width as nat));
    }
    v
}

/// The characters of the numeral of `n`, with zeros in front up to `width`.
pub fn zero_pad(n: u32, width: usize) -> (v: Vec<char>)
    ensures
        v@ == zero_padded(n as nat, width as nat),
{
    let mut digits = decimal_chars(n as u64);
    let mut v: Vec<char> = Vec::new();
    if digits.len() < width {
        let fill: usize = width - digits.len();
        let mut i: usize = 0;
        while i < fill
            invariant
                i <= fill,
                v@ == Seq::new(i as nat, |j: int| '0'),
            decreases fill - i,
        {
            v.push('0');
            proof {
                assert(v@ =~= Seq::new((i + 1) as nat, |j: int| '0'));
            }
            i = i + 1;
        }
    } else {
        proof {
            assert(v@ =~= Seq::<char>::empty());
        }
    }
    let ghost zeros = v@;
    v.append(&mut digits);
    proof {
        assert(v@ =~= zeros + decimal(n as nat));
        if decimal(n as nat).len() >= width {
            assert(v@ =~= decimal(n as nat));
        }
    }
    v
}

/// The sink for log lines.
pub struct Xlogger {
    lines: Vec<String>,
}

impl View for Xlogger {
    type V = Seq<Seq<char>>;

    /// The lines that wait for the reader, oldest first.
    closed spec fn view(&self) -> Seq<Seq<char>> {
        self.lines@.map_values(|l: String| l@)
    }
}

impl Xlogger {
    /// A sink without lines.
    pub fn init() -> (x: Xlogger)
        ensures
            x@ == Seq::<Seq<char>>::empty(),
    {
        let x = Xlogger { lines: Vec::new() };
        proof {
            assert(x@ =~= Seq::<Seq<char>>::empty());
        }
        x
    }

    /// Whether records of `target` are logged: only this program's own.
    pub fn enabled(target: &str) -> (b: bool)
        ensures
            b == own_target().is_prefix_of(target@),
    {
        starts_with(target, "udptcp")
    }

    /// The line for `record`, logged at the time `stamp`.
    pub fn format_line(stamp: &str, record: &Record) -> (s: String)
        ensures
            s@ == log_line(stamp@, *record),
    {
        let mut v = chars_of(stamp);
        v.push(' ');
        v.push('[');
        let mut file = match &record.file {
            Some(f) => fit(f.as_str(), 16),
            None => fit("", 16),
        };
        proof {
            reveal_strlit("");
            reveal_strlit(" [");
            reveal_strlit("][");
            reveal_strlit("]\t");
            assert(""@ =~= Seq::<char>::empty());
        }
        v.append(&mut file);
        v.push(']');
        v.push('[');
        let mut number = match record.line {
            Some(n) => zero_pad(n, 3),
            None => zero_pad(0, 3),
        };
        v.append(&mut number);
        v.push(']');
        v.push('[');
        let mut level = chars_of(record.level.name());
        v.append(&mut level);
        v.push(']');
        v.push('\t');
        let mut args = chars_of(record.args.as_str());
        v.append(&mut args);
        proof {
            assert(" ["@ =~= seq![' ', '[']);
            assert("]["@ =~= seq![']', '[']);
            assert("]\t"@ =~= seq![']', '\t']);
            assert(v@ =~= log_line(stamp@, *record));
        }
        string_from_chars(v)
    }

    /// The line for `record`, logged at the time `stamp`, or nothing where
    /// its target is not logged.
    pub fn render(stamp: &str, record: &Record) -> (r: Option<String>)
        ensures
            r is Some == own_target().is_prefix_of(record.target@),
            r is Some ==> r->0@ == log_line(stamp@, *record),
    {
        if Xlogger::enabled(record.target.as_str()) {
            Some(Xlogger::format_line(stamp, record))
        } else {
            None
        }
    }

    /// Puts `line` behind the lines that wait.
    pub fn push(&mut self, line: String)
        ensures
            final(self)@ == old(self)@.push(line@),
    {
        self.lines.push(line);
        proof {
            assert(final(self)@ =~= old(self)@.push(line@));
        }
    }

    /// Logs `record` at the time `stamp`: its line goes behind the lines
    /// that wait. A record of a foreign target changes nothing.
    pub fn log(&mut self, stamp: &str, record: &Record)
        ensures
            !own_target().is_prefix_of(record.target@) ==> final(self)@ == old(self)@,
            own_target().is_prefix_of(record.target@) ==> final(self)@ == old(self)@.push(
                log_line(stamp@, *record),
            ),
    {
        match Xlogger::render(stamp, record) {
            Some(line) => {
                self.push(line);
            },
            None => {},
        }
    }

    /// The number of lines that wait.
    pub fn pending(&self) -> (n: usize)
        ensures
            n == self@.len(),
    {
        self.lines.len()
    }

    /// Hands out the lines that wait, oldest first, and keeps none.
    pub fn drain(&mut self) -> (v: Vec<String>)
        ensures
            v@.map_values(|l: String| l@) == old(self)@,
            final(self)@ == Seq::<Seq<char>>::empty(),
    {
        let mut v: Vec<String> = Vec::new();
        std::mem::swap(&mut v, &mut self.lines);
        proof {
            assert(final(self)@ =~= Seq::<Seq<char>>::empty());
        }
        v
    }

    /// The colour of a line on a light background.
    pub fn color_logs(line: &str) -> (c: LogColor)
        ensures
            c == line_color(line@, false),
    {
        Xlogger::color_logs_themed(line, false)
    }

    /// The colour of a line, on a dark background or a light one.
    pub fn color_logs_themed(line: &str, dark: bool) -> (c: LogColor)
        ensures
            c == line_color(line@, dark),
    {
        if contains(line, "SEND") || contains(line, "RECV") {
            if dark {
                LogColor::Yellow
            } else {
                LogColor::Blue
            }
        } else if contains(line, "ERR") {
            LogColor::LightRed
        } else if dark {
            LogColor::LightGray
        } else {
            LogColor::DarkGray
        }
    }
}

} // verus!
