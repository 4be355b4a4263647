//! Log records: what the library asks to have written down, and the text of
//! numbers in them.

use vstd::prelude::*;

verus! {

/// How grave a record is.
#[derive(Clone, Copy, Debug, PartialEq, Eq, Structural)]
pub enum Level {
    Info,
    Warn,
    Error,
}

/// One record for the log: a level and a line of text.
#[derive(Clone, Debug, PartialEq, Eq)]
pub struct LogRecord {
    pub level: Level,
    pub message: String,
}

/// A record as mathematics: its level, and its text as characters.
pub struct Line {
    pub level: Level,
    pub text: Seq<char>,
}

impl View for LogRecord {
    type V = Line;

    open spec fn view(&self) -> Line {
        Line { level: self.level, text: self.message@ }
    }
}

/// The lines of a run of records, in order.
pub open spec fn lines_of(records: Seq<LogRecord>) -> Seq<Line> {
    records.map_values(|r: LogRecord| r@)
}

/// Whether a log grew by one record and no more: what stood in it stands
/// as before, and one record that reads `line` follows.
pub open spec fn appended(before: Seq<LogRecord>, after: Seq<LogRecord>, line: Line) -> bool {
    &&& after.len() == before.len() + 1
    &&& after.drop_last() == before
    &&& after.last()@ == line
}

impl LogRecord {
    /// A record of the given level that says `text`.
    pub fn new(level: Level, text: &str) -> (r: LogRecord)
        ensures
            r@ == (Line { level, text: text@ }),
    {
        LogRecord { level, message: String::from_str(text) }
    }
}

/// The character that stands for a digit.
pub open spec fn digit(d: nat) -> char
    recommends
        d < 10,
{
    seq!['0', '1', '2', '3', '4', '5', '6', '7', '8', '9'][d as int]
}

/// A number in decimal: most significant digit first, no leading zero but
/// for zero itself.
pub open spec fn decimal(n: nat) -> Seq<char>
    decreases n,
{
    if n < 10 {
        seq![digit(n)]
    } else {
        decimal(n / 10).push(digit(n % 10))
    }
}

fn digit_text(d: u16) -> (s: &'static str)
    requires
        d < 10,
    ensures
        s@ == seq![digit(d as nat)],
{
    proof {
        reveal_strlit("0");
        reveal_strlit("1");
        reveal_strlit("2");
        reveal_strlit("3");
        reveal_strlit("4");
        reveal_strlit("5");
        reveal_strlit("6");
        reveal_strlit("7");
        reveal_strlit("8");
        reveal_strlit("9");
    }
    let s = if d == 0 {
        "0"
    } else if d == 1 {
        "1"
    } else if d == 2 {
        "2"
    } else if d == 3 {
        "3"
    } else if d == 4 {
        "4"
    } else if d == 5 {
        "5"
    } else if d == 6 {
        "6"
    } else if d == 7 {
        "7"
    } else if d == 8 {
        "8"
    } else {
        "9"
    };
    assert(s@ =~= seq![digit(d as nat)]);
    s
}

/// Writes a number in decimal.
pub fn decimal_text(n: u16) -> (s: String)
    ensures
        s@ == decimal(n as nat),
    decreases n,
{
    if n < 10 {
        String::from_str(digit_text(n))
    } else {
        let mut s = decimal_text(n / 10);
        s.append(digit_text(n % 10));
        assert(s@ =~= decimal(n as nat / 10).push(digit(n as nat % 10)));
        s
    }
}

} // verus!
