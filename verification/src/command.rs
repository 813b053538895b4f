//! What the explorer is told to do: one line of input at a time, read as a
//! command, and what is said back when a line cannot be acted on.

use crate::players::Direction;
use vstd::prelude::*;

verus! {

/// One attempt to read a line from whoever steers the explorer.
pub enum Input {
    /// The line that was read.
    Line(String),
    /// Nothing could be read.
    Failed,
}

/// What a line asks for.
#[derive(Clone, Copy, Debug, PartialEq, Eq, Structural)]
pub enum Command {
    /// Walk one cell.
    Go(Direction),
    /// Use the portal.
    Teleport,
    /// A line that starts with anything but one of the five letters.
    Unknown,
    /// A line that holds nothing but white space.
    Blank,
}

/// Why an input did not end the explorer's turn.
#[derive(Clone, Copy, Debug, PartialEq, Eq, Structural)]
pub enum Notice {
    InvalidCommand,
    IgnoredWhitespace,
    CannotTeleport,
    ReadFailed,
}

/// Whether `c` is white space as Unicode defines it.
pub open spec fn is_space(c: char) -> bool {
    let n = c as u32;
    ||| 0x09 <= n <= 0x0D
    ||| n == 0x20
    ||| n == 0x85
    ||| n == 0xA0
    ||| n == 0x1680
    ||| 0x2000 <= n <= 0x200A
    ||| n == 0x2028
    ||| n == 0x2029
    ||| n == 0x202F
    ||| n == 0x205F
    ||| n == 0x3000
}

/// The first character of `line` at or after `from` that is no white space.
pub open spec fn first_mark_from(line: Seq<char>, from: int) -> Option<char>
    decreases line.len() - from,
{
    if from < 0 || from >= line.len() {
        None
    } else if is_space(line[from]) {
        first_mark_from(line, from + 1)
    } else {
        Some(line[from])
    }
}

/// The first character of `line` that is no white space.
pub open spec fn first_mark(line: Seq<char>) -> Option<char> {
    first_mark_from(line, 0)
}

/// The command that a line starting with `mark` gives. Only the capital
/// letters count.
pub open spec fn command_for(mark: char) -> Command {
    if mark == 'N' {
        Command::Go(Direction::North)
    } else if mark == 'S' {
        Command::Go(Direction::South)
    } else if mark == 'E' {
        Command::Go(Direction::East)
    } else if mark == 'W' {
        Command::Go(Direction::West)
    } else if mark == 'T' {
        Command::Teleport
    } else {
        Command::Unknown
    }
}

/// The command that `line` gives: its first character after any leading
/// white space decides, and what follows that character is not looked at.
pub open spec fn command_of(line: Seq<char>) -> Command {
    match first_mark(line) {
        Some(mark) => command_for(mark),
        None => Command::Blank,
    }
}

/// Whether `c` is white space.
pub fn is_whitespace(c: char) -> (space: bool)
    ensures
        space == is_space(c),
{
    let n: u32 = c as u32;
    (0x09 <= n && n <= 0x0D) || n == 0x20 || n == 0x85 || n == 0xA0 || n == 0x1680 || (0x2000 <= n
        && n <= 0x200A) || n == 0x2028 || n == 0x2029 || n == 0x202F || n == 0x205F || n == 0x3000
}

/// Reads `line` as a command.
pub fn read_command(line: &str) -> (command: Command)
    ensures
        command == command_of(line@),
{
    let length = line.unicode_len();
    let mut at: usize = 0;
    while at < length
        invariant
            length == line@.len(),
            at <= length,
            first_mark_from(line@, at as int) == first_mark(line@),
        decreases length - at,
    {
        let mark = line.get_char(at);
        if !is_whitespace(mark) {
            return if mark == 'N' {
                Command::Go(Direction::North)
            } else if mark == 'S' {
                Command::Go(Direction::South)
            } else if mark == 'E' {
                Command::Go(Direction::East)
            } else if mark == 'W' {
                Command::Go(Direction::West)
            } else if mark == 'T' {
                Command::Teleport
            } else {
                Command::Unknown
            };
        }
        at = at + 1;
    }
    Command::Blank
}

impl Notice {
    /// The words in which the notice is given to the player.
    pub fn message(&self) -> (text: &'static str)
        ensures
            text@ == match *self {
                Notice::InvalidCommand => "Invalid command"@,
                Notice::IgnoredWhitespace => "Ignoring leading whitespace"@,
                Notice::CannotTeleport => "Cannot teleport"@,
                Notice::ReadFailed => "Failed to read line"@,
            },
    {
        match self {
            Notice::InvalidCommand => "Invalid command",
            Notice::IgnoredWhitespace => "Ignoring leading whitespace",
            Notice::CannotTeleport => "Cannot teleport",
            Notice::ReadFailed => "Failed to read line",
        }
    }
}

/// The line that asks the player for a command.
pub fn prompt() -> (text: &'static str)
    ensures
        text@ == "Enter letter command: [N]orth [S]outh [E]ast [W]est [T]eleport"@,
{
    "Enter letter command: [N]orth [S]outh [E]ast [W]est [T]eleport"
}

} // verus!
