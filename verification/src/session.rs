//! The command interpreter: what each event of a session does to the buffer
//! and what the session asks of its surroundings in return.

use vstd::prelude::*;
use vstd::string::StringExecFns;
use crate::buffer::{Buffer, EditError, State, hits_of};
use crate::command::{parse, parse_line, Command, Verb};
use crate::lines::texts;
use crate::number::{decimal, parse as parse_number, parse_index, push_decimal};

verus! {

/// Where the buffer is read from and written to.
#[derive(Clone, Debug, PartialEq, Eq)]
pub enum Source {
    /// No file yet: the buffer is saved under its name, as a new file.
    New,
    /// The file at this path.
    Open(String),
}

/// The mathematical content of a `Source`.
pub ghost enum SourceView {
    New,
    Open(Seq<char>),
}

impl View for Source {
    type V = SourceView;

    open spec fn view(&self) -> SourceView {
        match self {
            Source::New => SourceView::New,
            Source::Open(path) => SourceView::Open(path@),
        }
    }
}

/// How a file is opened for writing.
#[derive(Clone, Copy, Debug, PartialEq, Eq, Structural)]
pub enum WriteMode {
    /// Create the file; fail where it exists.
    CreateNew,
    /// Create the file where it is missing, and replace what it holds.
    Replace,
}

/// What happened outside the session.
#[derive(Clone, Debug, PartialEq, Eq)]
pub enum Event {
    /// A line of input, as read with its terminator; empty at the end of
    /// input.
    Line(String),
    /// The file asked for was read and holds this text.
    FileRead(String),
    /// The file asked for could not be read, for this reason.
    FileReadFailed(String),
    /// The file was written.
    FileWritten,
    /// The file could not be written, for this reason.
    FileWriteFailed(String),
    /// The clipboard holds this text.
    ClipboardRead(String),
    /// The clipboard took the text.
    ClipboardWritten,
    /// The clipboard could not be reached, for this reason.
    ClipboardFailed(String),
}

/// The mathematical content of an `Event`.
pub ghost enum EventView {
    Line(Seq<char>),
    FileRead(Seq<char>),
    FileReadFailed(Seq<char>),
    FileWritten,
    FileWriteFailed(Seq<char>),
    ClipboardRead(Seq<char>),
    ClipboardWritten,
    ClipboardFailed(Seq<char>),
}

impl View for Event {
    type V = EventView;

    open spec fn view(&self) -> EventView {
        match self {
            Event::Line(raw) => EventView::Line(raw@),
            Event::FileRead(text) => EventView::FileRead(text@),
            Event::FileReadFailed(cause) => EventView::FileReadFailed(cause@),
            Event::FileWritten => EventView::FileWritten,
            Event::FileWriteFailed(cause) => EventView::FileWriteFailed(cause@),
            Event::ClipboardRead(text) => EventView::ClipboardRead(text@),
            Event::ClipboardWritten => EventView::ClipboardWritten,
            Event::ClipboardFailed(cause) => EventView::ClipboardFailed(cause@),
        }
    }
}

/// What the session asks of its surroundings after an event.
#[derive(Clone, Debug, PartialEq, Eq)]
pub enum Action {
    /// Nothing: read the next line of input.
    Continue,
    /// End the session.
    Quit,
    /// Print these lines on standard output, then read the next line.
    Print(Vec<String>),
    /// Report this failure, with its cause where one is known, on standard
    /// error, then read the next line.
    Report(EditError, String),
    /// Read the file at this path and answer with `FileRead` or
    /// `FileReadFailed`.
    ReadFile(String),
    /// Write `contents` to the file at `path`, opened as `mode` says, and
    /// answer with `FileWritten` or `FileWriteFailed`.
    WriteFile { path: String, mode: WriteMode, contents: String },
    /// Fetch the clipboard's text and answer with `ClipboardRead` or
    /// `ClipboardFailed`.
    ReadClipboard,
    /// Put this text on the clipboard and answer with `ClipboardWritten` or
    /// `ClipboardFailed`.
    WriteClipboard(String),
}

/// The mathematical content of an `Action`.
pub ghost enum ActionView {
    Continue,
    Quit,
    Print(Seq<Seq<char>>),
    Report(EditError, Seq<char>),
    ReadFile(Seq<char>),
    WriteFile { path: Seq<char>, mode: WriteMode, contents: Seq<char> },
    ReadClipboard,
    WriteClipboard(Seq<char>),
}

impl View for Action {
    type V = ActionView;

    open spec fn view(&self) -> ActionView {
        match self {
            Action::Continue => ActionView::Continue,
            Action::Quit => ActionView::Quit,
            Action::Print(lines) => ActionView::Print(texts(lines@)),
            Action::Report(kind, cause) => ActionView::Report(*kind, cause@),
            Action::ReadFile(path) => ActionView::ReadFile(path@),
            Action::WriteFile { path, mode, contents } => ActionView::WriteFile {
                path: path@,
                mode: *mode,
                contents: contents@,
            },
            Action::ReadClipboard => ActionView::ReadClipboard,
            Action::WriteClipboard(text) => ActionView::WriteClipboard(text@),
        }
    }
}

/// A failure without a known cause.
pub open spec fn failure(kind: EditError) -> ActionView {
    ActionView::Report(kind, Seq::empty())
}

/// One line of a buffer listing: a space, the index, a bar, a space, the
/// line.
pub open spec fn listing_line(index: nat, line: Seq<char>) -> Seq<char> {
    seq![' '] + decimal(index) + seq!['|', ' '] + line
}

/// The buffer listing: every line with its index, in order.
pub open spec fn listing(lines: Seq<Seq<char>>) -> Seq<Seq<char>> {
    Seq::new(lines.len(), |i: int| listing_line(i as nat, lines[i]))
}

/// One line of a search result: the index, a bar, a space, the line.
pub open spec fn match_line(index: nat, line: Seq<char>) -> Seq<char> {
    decimal(index) + seq!['|', ' '] + line
}

/// The search result: every match with its index, in order.
pub open spec fn match_lines(hits: Seq<(nat, Seq<char>)>) -> Seq<Seq<char>> {
    Seq::new(hits.len(), |i: int| match_line(hits[i].0, hits[i].1))
}

/// The report of the cursor's position.
pub open spec fn cursor_line(cursor: nat) -> Seq<char> {
    "Current line: "@ + decimal(cursor)
}

/// The help table.
pub open spec fn help_text() -> Seq<Seq<char>> {
    seq![
        "+ | Add line"@,
        "- | Remove line"@,
        "q | Quit"@,
        "n | Set buffer name"@,
        "p | Print buffer"@,
        "g | Go to line"@,
        "o | Open file"@,
        "l | Print current line"@,
        "r | Replace current line"@,
        "R | Replace current line with an earlier one"@,
        "S | Search"@,
        "d | Insert line after current"@,
        "D | Duplicate previous line"@,
        "v | Paste from clipboard"@,
        "c | Copy to clipboard"@,
        "w | Write to file"@,
        "C | Clear buffer"@,
        ". | Next line"@,
        ", | Previous line"@,
        "? | Help"@,
    ]
}

/// The mathematical content of a session.
pub ghost struct Machine {
    pub buffer: Buffer,
    pub source: SourceView,
}

impl Machine {
    /// A session and what it asks for.
    pub open spec fn with(self, action: ActionView) -> (Machine, ActionView) {
        (self, action)
    }

    /// The session with `buffer` in place of its buffer.
    pub open spec fn on(self, buffer: Buffer) -> Machine {
        Machine { buffer, ..self }
    }

    /// Index of the line `back` lines before the cursor, or 0 where there
    /// is no such line.
    pub open spec fn earlier(self, back: nat) -> nat {
        if self.buffer.cursor >= back {
            (self.buffer.cursor - back) as nat
        } else {
            0
        }
    }

    /// The outcome of a buffer operation as a step of the session: the new
    /// buffer, or the failure with the buffer as it was.
    pub open spec fn settle(self, outcome: Result<Buffer, EditError>) -> (Machine, ActionView) {
        match outcome {
            Ok(buffer) => self.on(buffer).with(ActionView::Continue),
            Err(kind) => self.with(failure(kind)),
        }
    }

    /// What the command `verb` with the argument `arg` does.
    pub open spec fn execute(self, verb: Verb, arg: Seq<char>) -> (Machine, ActionView) {
        let buffer = self.buffer;
        match verb {
            Verb::Append => self.on(buffer.insert_at_cursor_forward(arg)).with(
                ActionView::Continue,
            ),
            Verb::Remove => self.settle(buffer.remove_at(buffer.cursor)),
            Verb::Quit => self.with(ActionView::Quit),
            Verb::Name => self.on(buffer.rename(arg)).with(ActionView::Continue),
            Verb::Print => self.with(ActionView::Print(listing(buffer.lines))),
            Verb::Goto => match parse_index(arg) {
                Some(index) => self.settle(buffer.move_cursor_to(index)),
                None => self.with(failure(EditError::ParseError)),
            },
            Verb::Open => if arg.len() == 0 {
                self.with(failure(EditError::InvalidPath))
            } else {
                Machine { source: SourceView::Open(arg), ..self }.with(ActionView::ReadFile(arg))
            },
            Verb::Where => self.with(ActionView::Print(seq![cursor_line(buffer.cursor)])),
            Verb::Replace => self.settle(buffer.replace_at(buffer.cursor, arg)),
            Verb::Repeat => if buffer.lines.len() == 0 {
                self.with(failure(EditError::EmptyBuffer))
            } else {
                self.settle(buffer.replace_at(buffer.cursor, buffer.lines[self.earlier(2) as int]))
            },
            Verb::Search => {
                let hits = buffer.search(arg);
                if hits.len() == 0 {
                    self.with(failure(EditError::NotFound))
                } else {
                    self.with(ActionView::Print(match_lines(hits)))
                }
            },
            Verb::Insert => self.on(buffer.insert_after(buffer.cursor, arg)).with(
                ActionView::Continue,
            ),
            Verb::Duplicate => if buffer.lines.len() == 0 {
                self.with(failure(EditError::EmptyBuffer))
            } else {
                self.on(
                    buffer.insert_after(buffer.cursor, buffer.lines[self.earlier(1) as int]),
                ).with(ActionView::Continue)
            },
            Verb::Paste => self.with(ActionView::ReadClipboard),
            Verb::Copy => if buffer.lines.len() == 0 {
                self.with(failure(EditError::EmptyBuffer))
            } else {
                self.with(ActionView::WriteClipboard(buffer.lines[self.earlier(1) as int]))
            },
            Verb::Write => match self.source {
                SourceView::New => self.with(
                    ActionView::WriteFile {
                        path: buffer.name,
                        mode: WriteMode::CreateNew,
                        contents: buffer.serialize(),
                    },
                ),
                SourceView::Open(path) => self.with(
                    ActionView::WriteFile {
                        path,
                        mode: WriteMode::Replace,
                        contents: buffer.serialize(),
                    },
                ),
            },
            Verb::Clear => self.on(buffer.clear()).with(ActionView::Continue),
            Verb::Forward => self.on(buffer.move_cursor_relative(1)).with(ActionView::Continue),
            Verb::Backward => self.on(buffer.move_cursor_relative(-1)).with(
                if buffer.falls_below(-1) {
                    failure(EditError::EmptyBuffer)
                } else {
                    ActionView::Continue
                },
            ),
            Verb::Help => self.with(ActionView::Print(help_text())),
            Verb::Unknown => self.with(failure(EditError::UnknownCommand)),
        }
    }

    /// What the input line `raw` does; the end of input ends the session.
    pub open spec fn command(self, raw: Seq<char>) -> (Machine, ActionView) {
        match parse_line(raw) {
            Some(cmd) => self.execute(cmd.verb, cmd.arg),
            None => self.with(ActionView::Quit),
        }
    }

    /// What an event does to the session, and what the session asks for
    /// next.
    pub open spec fn step(self, event: EventView) -> (Machine, ActionView) {
        match event {
            EventView::Line(raw) => self.command(raw),
            EventView::FileRead(text) => self.on(self.buffer.load(text)).with(
                ActionView::Continue,
            ),
            EventView::FileReadFailed(cause) => self.on(self.buffer.load(Seq::empty())).with(
                ActionView::Report(EditError::IoError, cause),
            ),
            EventView::FileWritten => self.with(ActionView::Continue),
            EventView::FileWriteFailed(cause) => self.with(
                ActionView::Report(EditError::IoError, cause),
            ),
            EventView::ClipboardRead(text) => self.on(
                self.buffer.insert_at_cursor_forward(text),
            ).with(ActionView::Continue),
            EventView::ClipboardWritten => self.with(ActionView::Continue),
            EventView::ClipboardFailed(cause) => self.with(
                ActionView::Report(EditError::ClipboardError, cause),
            ),
        }
    }
}


/// What the arguments given at startup ask for: none starts a session
/// without a file, one that names a file starts a session on it and asks
/// for the file to be read. One that names none is refused as
/// `InvalidArgument`, more than one as `UnknownArgument`.
pub open spec fn startup(args: Seq<Seq<char>>) -> Result<(Machine, ActionView), EditError> {
    if args.len() == 0 {
        Ok((Machine { buffer: Buffer::initial(), source: SourceView::New }, ActionView::Continue))
    } else if args.len() > 1 {
        Err(EditError::UnknownArgument)
    } else if args[0].len() == 0 {
        Err(EditError::InvalidArgument)
    } else {
        Ok(
            (
                Machine { buffer: Buffer::initial(), source: SourceView::Open(args[0]) },
                ActionView::ReadFile(args[0]),
            ),
        )
    }
}

/// A failure without a known cause.
fn fail(kind: EditError) -> (action: Action)
    ensures
        action@ == failure(kind),
{
    Action::Report(kind, String::new())
}

/// The buffer listing.
fn list(lines: &Vec<String>) -> (out: Vec<String>)
    ensures
        texts(out@) == listing(texts(lines@)),
{
    let mut out: Vec<String> = Vec::new();
    let mut i: usize = 0;
    while i < lines.len()
        invariant
            i <= lines@.len(),
            out@.len() == i,
            forall|k: int| 0 <= k < i ==> out@[k]@ == listing_line(k as nat, lines@[k]@),
        decreases lines@.len() - i,
    {
        let mut row = String::new();
        row.push(' ');
        push_decimal(&mut row, i);
        row.push('|');
        row.push(' ');
        row.append(lines[i].as_str());
        assert(row@ =~= listing_line(i as nat, lines@[i as int]@));
        out.push(row);
        i += 1;
    }
    assert(texts(out@) =~= listing(texts(lines@)));
    out
}

/// The search result.
fn list_matches(hits: &Vec<(usize, String)>) -> (out: Vec<String>)
    ensures
        texts(out@) == match_lines(hits_of(hits@)),
{
    let mut out: Vec<String> = Vec::new();
    let mut i: usize = 0;
    while i < hits.len()
        invariant
            i <= hits@.len(),
            out@.len() == i,
            forall|k: int| 0 <= k < i ==> out@[k]@ == match_line(hits@[k].0 as nat, hits@[k].1@),
        decreases hits@.len() - i,
    {
        let mut row = String::new();
        push_decimal(&mut row, hits[i].0);
        row.push('|');
        row.push(' ');
        row.append(hits[i].1.as_str());
        assert(row@ =~= match_line(hits@[i as int].0 as nat, hits@[i as int].1@));
        out.push(row);
        i += 1;
    }
    assert(texts(out@) =~= match_lines(hits_of(hits@)));
    out
}

/// The help table.
pub fn help() -> (out: Vec<String>)
    ensures
        texts(out@) == help_text(),
{
    let mut out: Vec<String> = Vec::new();
    out.push("+ | Add line".to_owned());
    out.push("- | Remove line".to_owned());
    out.push("q | Quit".to_owned());
    out.push("n | Set buffer name".to_owned());
    out.push("p | Print buffer".to_owned());
    out.push("g | Go to line".to_owned());
    out.push("o | Open file".to_owned());
    out.push("l | Print current line".to_owned());
    out.push("r | Replace current line".to_owned());
    out.push("R | Replace current line with an earlier one".to_owned());
    out.push("S | Search".to_owned());
    out.push("d | Insert line after current".to_owned());
    out.push("D | Duplicate previous line".to_owned());
    out.push("v | Paste from clipboard".to_owned());
    out.push("c | Copy to clipboard".to_owned());
    out.push("w | Write to file".to_owned());
    out.push("C | Clear buffer".to_owned());
    out.push(". | Next line".to_owned());
    out.push(", | Previous line".to_owned());
    out.push("? | Help".to_owned());
    assert(texts(out@) =~= help_text());
    out
}

/// An interactive session: the buffer and the file it belongs to.
pub struct Session {
    state: State,
    source: Source,
}

impl View for Session {
    type V = Machine;

    closed spec fn view(&self) -> Machine {
        Machine { buffer: self.state@, source: self.source@ }
    }
}

impl Session {
    /// Starts a session from the arguments given at startup, the program's
    /// own name left out.
    pub fn start(args: &Vec<String>) -> (r: Result<(Session, Action), EditError>)
        ensures
            match r {
                Ok(begun) => startup(texts(args@)) == Ok::<(Machine, ActionView), EditError>(
                    (begun.0@, begun.1@),
                ) && begun.0@.buffer.wf(),
                Err(kind) => startup(texts(args@)) == Err::<(Machine, ActionView), EditError>(kind),
            },
    {
        if args.len() == 0 {
            Ok((Session { state: State::new(), source: Source::New }, Action::Continue))
        } else if args.len() > 1 {
            Err(EditError::UnknownArgument)
        } else if args[0].as_str().unicode_len() == 0 {
            Err(EditError::InvalidArgument)
        } else {
            Ok(
                (
                    Session { state: State::new(), source: Source::Open(args[0].clone()) },
                    Action::ReadFile(args[0].clone()),
                ),
            )
        }
    }

    /// The buffer.
    pub fn state(&self) -> (state: &State)
        ensures
            state@ == self@.buffer,
    {
        &self.state
    }

    /// The file that the buffer belongs to.
    pub fn source(&self) -> (source: &Source)
        ensures
            source@ == self@.source,
    {
        &self.source
    }

    /// The text of the line `back` lines before the cursor, or of line 0
    /// where there is no such line.
    fn earlier_line(&self, back: usize) -> (line: String)
        requires
            self@.buffer.lines.len() > 0,
        ensures
            line@ == self@.buffer.lines[self@.earlier(back as nat) as int],
    {
        let cursor: usize = self.state.current_line();
        let index: usize = if cursor >= back {
            cursor - back
        } else {
            0
        };
        match self.state.line(index) {
            Some(text) => text.to_owned(),
            None => String::new(),
        }
    }

    /// Turns the outcome of a buffer operation into what the session asks
    /// for next.
    fn settled(outcome: Result<(), EditError>) -> (action: Action)
        ensures
            action@ == match outcome {
                Ok(_) => ActionView::Continue,
                Err(kind) => failure(kind),
            },
    {
        match outcome {
            Ok(_) => Action::Continue,
            Err(kind) => fail(kind),
        }
    }

    /// Carries out one command.
    pub fn execute(&mut self, cmd: Command) -> (action: Action)
        ensures
            (final(self)@, action@) == old(self)@.execute(cmd.verb, cmd.arg@),
            final(self)@.buffer.wf(),
    {
        let Command { verb, arg } = cmd;
        let cursor: usize = self.state.current_line();
        match verb {
            Verb::Append => {
                self.state.insert_at_cursor_forward(arg);
                Action::Continue
            },
            Verb::Remove => Self::settled(self.state.remove_at(cursor)),
            Verb::Quit => Action::Quit,
            Verb::Name => {
                self.state.set_name(arg);
                Action::Continue
            },
            Verb::Print => Action::Print(list(self.state.lines())),
            Verb::Goto => match parse_number(arg.as_str()) {
                Some(index) => Self::settled(self.state.move_cursor_to(index)),
                None => fail(EditError::ParseError),
            },
            Verb::Open => if arg.as_str().unicode_len() == 0 {
                fail(EditError::InvalidPath)
            } else {
                self.source = Source::Open(arg.clone());
                Action::ReadFile(arg)
            },
            Verb::Where => {
                let mut row = "Current line: ".to_owned();
                push_decimal(&mut row, cursor);
                let mut out: Vec<String> = Vec::new();
                out.push(row);
                assert(texts(out@) =~= seq![cursor_line(cursor as nat)]);
                Action::Print(out)
            },
            Verb::Replace => Self::settled(self.state.replace_at(cursor, arg)),
            Verb::Repeat => if self.state.len() == 0 {
                fail(EditError::EmptyBuffer)
            } else {
                let line = self.earlier_line(2);
                Self::settled(self.state.replace_at(cursor, line))
            },
            Verb::Search => {
                let hits = self.state.search(arg.as_str());
                if hits.len() == 0 {
                    fail(EditError::NotFound)
                } else {
                    Action::Print(list_matches(&hits))
                }
            },
            Verb::Insert => {
                self.state.insert_after(cursor, arg);
                Action::Continue
            },
            Verb::Duplicate => if self.state.len() == 0 {
                fail(EditError::EmptyBuffer)
            } else {
                let line = self.earlier_line(1);
                self.state.insert_after(cursor, line);
                Action::Continue
            },
            Verb::Paste => Action::ReadClipboard,
            Verb::Copy => if self.state.len() == 0 {
                fail(EditError::EmptyBuffer)
            } else {
                Action::WriteClipboard(self.earlier_line(1))
            },
            Verb::Write => {
                let contents = self.state.serialize();
                match &self.source {
                    Source::New => Action::WriteFile {
                        path: self.state.buffer_name().to_owned(),
                        mode: WriteMode::CreateNew,
                        contents,
                    },
                    Source::Open(path) => Action::WriteFile {
                        path: path.clone(),
                        mode: WriteMode::Replace,
                        contents,
                    },
                }
            },
            Verb::Clear => {
                self.state.clear();
                Action::Continue
            },
            Verb::Forward => Self::settled(self.state.move_cursor_relative(1)),
            Verb::Backward => Self::settled(self.state.move_cursor_relative(-1)),
            Verb::Help => Action::Print(help()),
            Verb::Unknown => fail(EditError::UnknownCommand),
        }
    }

    /// Reads one line of input, as it came with its terminator, and
    /// carries it out; the end of input ends the session.
    pub fn command(&mut self, raw: &str) -> (action: Action)
        ensures
            (final(self)@, action@) == old(self)@.command(raw@),
            final(self)@.buffer.wf(),
    {
        match parse(raw) {
            Some(cmd) => self.execute(cmd),
            None => {
                proof {
                    use_type_invariant(&self.state);
                }
                Action::Quit
            },
        }
    }

    /// Takes in what happened outside and says what to do next. Events are
    /// taken as they come: the session does not hold back one that it did
    /// not ask for.
    pub fn step(&mut self, event: Event) -> (action: Action)
        ensures
            (final(self)@, action@) == old(self)@.step(event@),
            final(self)@.buffer.wf(),
    {
        proof {
            use_type_invariant(&self.state);
        }
        match event {
            Event::Line(raw) => self.command(raw.as_str()),
            Event::FileRead(text) => {
                self.state.load(text.as_str());
                Action::Continue
            },
            Event::FileReadFailed(cause) => {
                let nothing = String::new();
                self.state.load(nothing.as_str());
                Action::Report(EditError::IoError, cause)
            },
            Event::FileWritten => Action::Continue,
            Event::FileWriteFailed(cause) => Action::Report(EditError::IoError, cause),
            Event::ClipboardRead(text) => {
                self.state.insert_at_cursor_forward(text);
                Action::Continue
            },
            Event::ClipboardWritten => Action::Continue,
            Event::ClipboardFailed(cause) => Action::Report(EditError::ClipboardError, cause),
        }
    }
}

} // verus!
