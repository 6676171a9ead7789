//! Reading one line of input as a command: a leading character that names
//! the command, and the rest of the line as its argument.

use vstd::prelude::*;
use crate::text::{chars_of, string_of};

verus! {

/// The commands.
#[derive(Clone, Copy, Debug, PartialEq, Eq, Structural)]
pub enum Verb {
    /// `+`: add a line at the cursor.
    Append,
    /// `-`: remove the current line.
    Remove,
    /// `q`: leave.
    Quit,
    /// `n`: name the buffer.
    Name,
    /// `p`: print the buffer.
    Print,
    /// `g`: go to a line.
    Goto,
    /// `o`: open a file.
    Open,
    /// `l`: print the current line's index.
    Where,
    /// `r`: replace the current line.
    Replace,
    /// `R`: overwrite the current line with an earlier one.
    Repeat,
    /// `S`: search.
    Search,
    /// `d`: insert a line after the current one.
    Insert,
    /// `D`: duplicate the line before the current one.
    Duplicate,
    /// `v`: paste from the clipboard.
    Paste,
    /// `c`: copy to the clipboard.
    Copy,
    /// `w`: write the buffer to its file.
    Write,
    /// `C`: clear the buffer.
    Clear,
    /// `.`: move the cursor one line on.
    Forward,
    /// `,`: move the cursor one line back.
    Backward,
    /// `?`: print the help table.
    Help,
    /// Any other leading character, and a line without one.
    Unknown,
}

/// The command that a leading character names.
pub open spec fn verb_of(c: char) -> Verb {
    if c == '+' {
        Verb::Append
    } else if c == '-' {
        Verb::Remove
    } else if c == 'q' {
        Verb::Quit
    } else if c == 'n' {
        Verb::Name
    } else if c == 'p' {
        Verb::Print
    } else if c == 'g' {
        Verb::Goto
    } else if c == 'o' {
        Verb::Open
    } else if c == 'l' {
        Verb::Where
    } else if c == 'r' {
        Verb::Replace
    } else if c == 'R' {
        Verb::Repeat
    } else if c == 'S' {
        Verb::Search
    } else if c == 'd' {
        Verb::Insert
    } else if c == 'D' {
        Verb::Duplicate
    } else if c == 'v' {
        Verb::Paste
    } else if c == 'c' {
        Verb::Copy
    } else if c == 'w' {
        Verb::Write
    } else if c == 'C' {
        Verb::Clear
    } else if c == '.' {
        Verb::Forward
    } else if c == ',' {
        Verb::Backward
    } else if c == '?' {
        Verb::Help
    } else {
        Verb::Unknown
    }
}

/// How many leading characters of the line a command's argument leaves
/// out; 0 for a command that takes no argument.
pub open spec fn skip_of(verb: Verb) -> nat {
    match verb {
        Verb::Append | Verb::Replace | Verb::Search | Verb::Insert => 1,
        Verb::Name | Verb::Goto | Verb::Open => 2,
        _ => 0,
    }
}

/// `raw` without the line feed that ends it, if one does.
pub open spec fn without_terminator(raw: Seq<char>) -> Seq<char> {
    if raw.len() > 0 && raw.last() == '\n' {
        raw.drop_last()
    } else {
        raw
    }
}

/// The argument that `verb` takes from `line`: the line from the skip on,
/// empty where the line is no longer than the skip, and empty for a command
/// that takes none.
pub open spec fn argument_of(verb: Verb, line: Seq<char>) -> Seq<char> {
    let skip = skip_of(verb);
    if skip == 0 || skip >= line.len() {
        Seq::empty()
    } else {
        line.skip(skip as int)
    }
}

/// One line of input, read as a command.
pub ghost struct CommandView {
    pub verb: Verb,
    pub arg: Seq<char>,
}

/// What the input line `raw` asks for. No line at all, the end of input,
/// is `None`. A line is read without its terminator. An empty line names
/// no command.
pub open spec fn parse_line(raw: Seq<char>) -> Option<CommandView> {
    if raw.len() == 0 {
        None
    } else {
        let line = without_terminator(raw);
        if line.len() == 0 {
            Some(CommandView { verb: Verb::Unknown, arg: Seq::empty() })
        } else {
            let verb = verb_of(line[0]);
            Some(CommandView { verb, arg: argument_of(verb, line) })
        }
    }
}

/// One line of input, read as a command.
#[derive(Clone, Debug, PartialEq, Eq)]
pub struct Command {
    pub verb: Verb,
    pub arg: String,
}

impl View for Command {
    type V = CommandView;

    open spec fn view(&self) -> CommandView {
        CommandView { verb: self.verb, arg: self.arg@ }
    }
}

/// The command that the leading character `c` names.
pub fn verb(c: char) -> (v: Verb)
    ensures
        v == verb_of(c),
{
    if c == '+' {
        Verb::Append
    } else if c == '-' {
        Verb::Remove
    } else if c == 'q' {
        Verb::Quit
    } else if c == 'n' {
        Verb::Name
    } else if c == 'p' {
        Verb::Print
    } else if c == 'g' {
        Verb::Goto
    } else if c == 'o' {
        Verb::Open
    } else if c == 'l' {
        Verb::Where
    } else if c == 'r' {
        Verb::Replace
    } else if c == 'R' {
        Verb::Repeat
    } else if c == 'S' {
        Verb::Search
    } else if c == 'd' {
        Verb::Insert
    } else if c == 'D' {
        Verb::Duplicate
    } else if c == 'v' {
        Verb::Paste
    } else if c == 'c' {
        Verb::Copy
    } else if c == 'w' {
        Verb::Write
    } else if c == 'C' {
        Verb::Clear
    } else if c == '.' {
        Verb::Forward
    } else if c == ',' {
        Verb::Backward
    } else if c == '?' {
        Verb::Help
    } else {
        Verb::Unknown
    }
}

/// How many leading characters the argument of `verb` leaves out.
pub fn skip(verb: Verb) -> (n: usize)
    ensures
        n == skip_of(verb),
{
    match verb {
        Verb::Append | Verb::Replace | Verb::Search | Verb::Insert => 1,
        Verb::Name | Verb::Goto | Verb::Open => 2,
        _ => 0,
    }
}

/// Reads the input line `raw`, as it came with its terminator, as a
/// command; `None` at the end of input.
pub fn parse(raw: &str) -> (cmd: Option<Command>)
    ensures
        match cmd {
            Some(c) => parse_line(raw@) == Some(c@),
            None => parse_line(raw@) is None,
        },
{
    let chars = chars_of(raw);
    let n: usize = chars.len();
    if n == 0 {
        return None;
    }
    let end: usize = if chars[n - 1] == '\n' {
        n - 1
    } else {
        n
    };
    let ghost line = without_terminator(raw@);
    assert(line =~= chars@.take(end as int));
    if end == 0 {
        return Some(Command { verb: Verb::Unknown, arg: String::new() });
    }
    let verb = verb(chars[0]);
    let skip = skip(verb);
    let arg = if skip == 0 || skip >= end {
        String::new()
    } else {
        let arg = string_of(&chars, skip, end);
        assert(arg@ =~= line.skip(skip as int));
        arg
    };
    Some(Command { verb, arg })
}

} // verus!
