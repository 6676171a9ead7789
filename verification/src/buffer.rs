//! The buffer store: an ordered sequence of lines, a name and a cursor.

use vstd::prelude::*;
use crate::lines::{join, joined, split, split_lines, texts};
use crate::text::{chars_contain, chars_of, contains};

verus! {

/// What can go wrong with a command.
#[derive(Clone, Copy, Debug, PartialEq, Eq, Structural)]
pub enum EditError {
    /// A line was needed and the buffer holds none.
    EmptyBuffer,
    /// A line index lies beyond the buffer.
    IndexOutOfRange,
    /// A number was expected and the text is none.
    ParseError,
    /// The text names no file.
    InvalidPath,
    /// The argument given at startup names no file.
    InvalidArgument,
    /// More arguments were given at startup than the one file.
    UnknownArgument,
    /// The file system refused to open, read or write.
    IoError,
    /// The clipboard could not be reached.
    ClipboardError,
    /// The line's first character names no command.
    UnknownCommand,
    /// A search matched no line.
    NotFound,
}

/// The words that name a failure in a notice.
pub open spec fn message_of(kind: EditError) -> Seq<char> {
    match kind {
        EditError::EmptyBuffer => "Buffer is empty"@,
        EditError::IndexOutOfRange => "Line number out of range"@,
        EditError::ParseError => "Invalid line number"@,
        EditError::InvalidPath => "Invalid file path"@,
        EditError::InvalidArgument => "Invalid argument"@,
        EditError::UnknownArgument => "Unknown argument"@,
        EditError::IoError => "Unable to access file"@,
        EditError::ClipboardError => "Unable to access clipboard"@,
        EditError::UnknownCommand => "Unknown line prefix"@,
        EditError::NotFound => "No lines found"@,
    }
}

impl EditError {
    /// The words that name this failure in a notice.
    pub fn message(&self) -> (text: String)
        ensures
            text@ == message_of(*self),
    {
        match self {
            EditError::EmptyBuffer => "Buffer is empty".to_owned(),
            EditError::IndexOutOfRange => "Line number out of range".to_owned(),
            EditError::ParseError => "Invalid line number".to_owned(),
            EditError::InvalidPath => "Invalid file path".to_owned(),
            EditError::InvalidArgument => "Invalid argument".to_owned(),
            EditError::UnknownArgument => "Unknown argument".to_owned(),
            EditError::IoError => "Unable to access file".to_owned(),
            EditError::ClipboardError => "Unable to access clipboard".to_owned(),
            EditError::UnknownCommand => "Unknown line prefix".to_owned(),
            EditError::NotFound => "No lines found".to_owned(),
        }
    }
}

/// The mathematical content of a buffer.
pub ghost struct Buffer {
    /// The lines, first to last, each without a line terminator.
    pub lines: Seq<Seq<char>>,
    /// The name under which a buffer without a file is saved.
    pub name: Seq<char>,
    /// The current line; 0 while the buffer is empty.
    pub cursor: nat,
}

impl Buffer {
    /// The buffer that a session starts with: empty, named `test.txt`.
    pub open spec fn initial() -> Buffer {
        Buffer { lines: Seq::empty(), name: "test.txt"@, cursor: 0 }
    }

    /// The cursor stands on a line of the buffer, or at 0 in an empty one.
    pub open spec fn wf(self) -> bool {
        if self.lines.len() == 0 {
            self.cursor == 0
        } else {
            self.cursor < self.lines.len()
        }
    }

    /// Index of the last line; 0 in an empty buffer.
    pub open spec fn last_index(self) -> nat {
        if self.lines.len() == 0 {
            0
        } else {
            (self.lines.len() - 1) as nat
        }
    }

    /// `text` appended where the cursor stands on the last line or the
    /// buffer is empty, else inserted before the current line; the cursor
    /// then moves one line on, and onto the only line of a buffer that was
    /// empty.
    pub open spec fn insert_at_cursor_forward(self, text: Seq<char>) -> Buffer {
        if self.lines.len() == 0 {
            Buffer { lines: seq![text], cursor: 0, ..self }
        } else if self.cursor >= self.lines.len() - 1 {
            Buffer { lines: self.lines.push(text), cursor: self.cursor + 1, ..self }
        } else {
            Buffer {
                lines: self.lines.insert(self.cursor as int, text),
                cursor: self.cursor + 1,
                ..self
            }
        }
    }

    /// Where a line inserted after line `index` comes to stand: directly
    /// behind it, or at the end where the buffer has no such line.
    pub open spec fn slot_after(self, index: nat) -> nat {
        if index + 1 <= self.lines.len() {
            index + 1
        } else {
            self.lines.len()
        }
    }

    /// `text` inserted directly after line `index`, with the cursor on the
    /// new line.
    pub open spec fn insert_after(self, index: nat, text: Seq<char>) -> Buffer {
        let slot = self.slot_after(index);
        Buffer { lines: self.lines.insert(slot as int, text), cursor: slot, ..self }
    }

    /// Line `index` removed, and the cursor one line back unless it stood
    /// at 0.
    pub open spec fn remove_at(self, index: nat) -> Result<Buffer, EditError> {
        if self.lines.len() == 0 {
            Err(EditError::EmptyBuffer)
        } else if index >= self.lines.len() {
            Err(EditError::IndexOutOfRange)
        } else {
            Ok(
                Buffer {
                    lines: self.lines.remove(index as int),
                    cursor: if self.cursor > 0 {
                        (self.cursor - 1) as nat
                    } else {
                        0
                    },
                    ..self
                },
            )
        }
    }

    /// Line `index` overwritten with `text`.
    pub open spec fn replace_at(self, index: nat, text: Seq<char>) -> Result<Buffer, EditError> {
        if index >= self.lines.len() {
            Err(EditError::IndexOutOfRange)
        } else {
            Ok(Buffer { lines: self.lines.update(index as int, text), ..self })
        }
    }

    /// The cursor set on line `index`.
    pub open spec fn move_cursor_to(self, index: nat) -> Result<Buffer, EditError> {
        if index >= self.lines.len() {
            Err(EditError::IndexOutOfRange)
        } else {
            Ok(Buffer { cursor: index, ..self })
        }
    }

    /// A move by `delta` lines would leave the buffer at its start.
    pub open spec fn falls_below(self, delta: int) -> bool {
        self.cursor + delta < 0
    }

    /// The cursor moved by `delta` lines and held inside the buffer: at 0
    /// where the move would pass the first line, at the last line where it
    /// would pass that.
    pub open spec fn move_cursor_relative(self, delta: int) -> Buffer {
        let target = self.cursor + delta;
        Buffer {
            cursor: if target < 0 {
                0
            } else if target > self.last_index() {
                self.last_index()
            } else {
                target as nat
            },
            ..self
        }
    }

    /// No lines, no name, the cursor at 0.
    pub open spec fn clear(self) -> Buffer {
        Buffer { lines: Seq::empty(), name: Seq::empty(), cursor: 0 }
    }

    /// The buffer under the name `name`.
    pub open spec fn rename(self, name: Seq<char>) -> Buffer {
        Buffer { name, ..self }
    }

    /// The lines replaced by those of the file text `text`, with the cursor
    /// on the last of them.
    pub open spec fn load(self, text: Seq<char>) -> Buffer {
        let lines = split_lines(text);
        Buffer {
            lines,
            cursor: if lines.len() == 0 {
                0
            } else {
                (lines.len() - 1) as nat
            },
            ..self
        }
    }

    /// The matches of `pat` among the first `n` lines: index and text of
    /// each line that contains `pat`, in line order.
    pub open spec fn hits_in(self, pat: Seq<char>, n: nat) -> Seq<(nat, Seq<char>)>
        decreases n,
    {
        if n == 0 {
            Seq::empty()
        } else {
            let earlier = self.hits_in(pat, (n - 1) as nat);
            if contains(self.lines[n - 1], pat) {
                earlier.push(((n - 1) as nat, self.lines[n - 1]))
            } else {
                earlier
            }
        }
    }

    /// The matches of `pat` in the whole buffer.
    pub open spec fn search(self, pat: Seq<char>) -> Seq<(nat, Seq<char>)> {
        self.hits_in(pat, self.lines.len())
    }

    /// The text of the file that holds the buffer.
    pub open spec fn serialize(self) -> Seq<char> {
        joined(self.lines)
    }
}

/// What a vector of matches holds.
pub open spec fn hits_of(v: Seq<(usize, String)>) -> Seq<(nat, Seq<char>)> {
    Seq::new(v.len(), |i: int| (v[i].0 as nat, v[i].1@))
}

/// The buffer under edit.
pub struct State {
    lines: Vec<String>,
    buffer_name: String,
    current_line: usize,
}

impl View for State {
    type V = Buffer;

    closed spec fn view(&self) -> Buffer {
        Buffer {
            lines: texts(self.lines@),
            name: self.buffer_name@,
            cursor: self.current_line as nat,
        }
    }
}

impl State {
    /// Holds of every `State`: the cursor stands on a line of the buffer,
    /// or at 0 in an empty one.
    #[verifier::type_invariant]
    pub open spec fn well_formed(self) -> bool {
        self@.wf()
    }

    /// Hands out the lines and the cursor, leaving an empty buffer behind.
    fn take(&mut self) -> (r: (Vec<String>, usize))
        ensures
            r.0 == old(self).lines,
            r.1 == old(self).current_line,
            old(self)@.wf(),
            final(self).lines@.len() == 0,
            final(self).current_line == 0,
            final(self).buffer_name == old(self).buffer_name,
    {
        proof {
            use_type_invariant(&*self);
        }
        let cursor: usize = self.current_line;
        self.current_line = 0;
        let mut lines: Vec<String> = Vec::new();
        std::mem::swap(&mut lines, &mut self.lines);
        (lines, cursor)
    }

    /// Puts `lines` and `cursor` in place of those held.
    fn put(&mut self, lines: Vec<String>, cursor: usize)
        requires
            if lines@.len() == 0 {
                cursor == 0
            } else {
                cursor < lines@.len()
            },
        ensures
            final(self).lines == lines,
            final(self).current_line == cursor,
            final(self).buffer_name == old(self).buffer_name,
    {
        let mut lines = lines;
        self.current_line = 0;
        std::mem::swap(&mut lines, &mut self.lines);
        self.current_line = cursor;
    }

    /// An empty buffer named `test.txt`.
    pub fn new() -> (s: Self)
        ensures
            s@ == Buffer::initial(),
    {
        let s = State { lines: Vec::new(), buffer_name: "test.txt".to_owned(), current_line: 0 };
        assert(s@.lines =~= Seq::<Seq<char>>::empty());
        s
    }

    /// Number of lines.
    pub fn len(&self) -> (n: usize)
        ensures
            n == self@.lines.len(),
    {
        self.lines.len()
    }

    /// The current line's index.
    pub fn current_line(&self) -> (i: usize)
        ensures
            i == self@.cursor,
            self@.wf(),
    {
        proof {
            use_type_invariant(self);
        }
        self.current_line
    }

    /// The buffer's name.
    pub fn buffer_name(&self) -> (name: &str)
        ensures
            name@ == self@.name,
    {
        self.buffer_name.as_str()
    }

    /// The lines, first to last.
    pub fn lines(&self) -> (lines: &Vec<String>)
        ensures
            texts(lines@) == self@.lines,
    {
        &self.lines
    }

    /// Line `index`, where the buffer has one.
    pub fn line(&self, index: usize) -> (line: Option<&str>)
        ensures
            match line {
                Some(text) => index < self@.lines.len() && text@ == self@.lines[index as int],
                None => index >= self@.lines.len(),
            },
    {
        if index < self.lines.len() {
            Some(self.lines[index].as_str())
        } else {
            None
        }
    }

    /// Names the buffer `name`.
    pub fn set_name(&mut self, name: String)
        ensures
            final(self)@ == old(self)@.rename(name@),
    {
        proof {
            use_type_invariant(&*self);
        }
        self.buffer_name = name;
    }

    /// Adds `text` at the cursor and moves the cursor one line on.
    pub fn insert_at_cursor_forward(&mut self, text: String)
        ensures
            final(self)@ == old(self)@.insert_at_cursor_forward(text@),
            final(self)@.wf(),
    {
        let (mut lines, cursor) = self.take();
        let n: usize = lines.len();
        let next: usize = if n == 0 {
            0
        } else {
            cursor + 1
        };
        let ghost before = lines@;
        if n == 0 || cursor >= n - 1 {
            lines.push(text);
            assert(texts(lines@) =~= texts(before).push(text@));
            assert(n == 0 ==> texts(lines@) =~= seq![text@]);
        } else {
            lines.insert(cursor, text);
            assert(texts(lines@) =~= texts(before).insert(cursor as int, text@));
        }
        self.put(lines, next);
    }

    /// Inserts `text` directly after line `index`, or at the end where the
    /// buffer has no such line, and sets the cursor on the new line.
    pub fn insert_after(&mut self, index: usize, text: String)
        ensures
            final(self)@ == old(self)@.insert_after(index as nat, text@),
            final(self)@.wf(),
    {
        let (mut lines, _) = self.take();
        let n: usize = lines.len();
        let slot: usize = if index < n {
            index + 1
        } else {
            n
        };
        let ghost before = lines@;
        lines.insert(slot, text);
        assert(texts(lines@) =~= texts(before).insert(slot as int, text@));
        self.put(lines, slot);
    }

    /// Removes line `index` and moves the cursor one line back unless it
    /// stands at 0. An empty buffer and an index beyond the buffer are
    /// refused, and the buffer stays as it is.
    pub fn remove_at(&mut self, index: usize) -> (r: Result<(), EditError>)
        ensures
            match old(self)@.remove_at(index as nat) {
                Ok(b) => r is Ok && final(self)@ == b,
                Err(e) => r == Err::<(), EditError>(e) && final(self)@ == old(self)@,
            },
            final(self)@.wf(),
    {
        let (mut lines, cursor) = self.take();
        let n: usize = lines.len();
        if n == 0 {
            self.put(lines, cursor);
            return Err(EditError::EmptyBuffer);
        }
        if index >= n {
            self.put(lines, cursor);
            return Err(EditError::IndexOutOfRange);
        }
        let ghost before = lines@;
        let _ = lines.remove(index);
        assert(texts(lines@) =~= texts(before).remove(index as int));
        let back: usize = if cursor > 0 {
            cursor - 1
        } else {
            0
        };
        self.put(lines, back);
        Ok(())
    }

    /// Overwrites line `index` with `text`. An index beyond the buffer is
    /// refused.
    pub fn replace_at(&mut self, index: usize, text: String) -> (r: Result<(), EditError>)
        ensures
            match old(self)@.replace_at(index as nat, text@) {
                Ok(b) => r is Ok && final(self)@ == b,
                Err(e) => r == Err::<(), EditError>(e) && final(self)@ == old(self)@,
            },
            final(self)@.wf(),
    {
        let (mut lines, cursor) = self.take();
        if index >= lines.len() {
            self.put(lines, cursor);
            return Err(EditError::IndexOutOfRange);
        }
        let ghost before = lines@;
        lines.set(index, text);
        assert(texts(lines@) =~= texts(before).update(index as int, text@));
        self.put(lines, cursor);
        Ok(())
    }

    /// Sets the cursor on line `index`. An index beyond the buffer is
    /// refused, which is every index while the buffer is empty.
    pub fn move_cursor_to(&mut self, index: usize) -> (r: Result<(), EditError>)
        ensures
            match old(self)@.move_cursor_to(index as nat) {
                Ok(b) => r is Ok && final(self)@ == b,
                Err(e) => r == Err::<(), EditError>(e) && final(self)@ == old(self)@,
            },
            final(self)@.wf(),
    {
        proof {
            use_type_invariant(&*self);
        }
        if index >= self.lines.len() {
            return Err(EditError::IndexOutOfRange);
        }
        self.current_line = index;
        Ok(())
    }

    /// Moves the cursor by `delta` lines. It never leaves the buffer: a move
    /// that would pass the last line stops there, and one that would pass
    /// the first line stops at 0 and is reported as `EmptyBuffer`.
    pub fn move_cursor_relative(&mut self, delta: isize) -> (r: Result<(), EditError>)
        ensures
            final(self)@ == old(self)@.move_cursor_relative(delta as int),
            r == if old(self)@.falls_below(delta as int) {
                Err::<(), EditError>(EditError::EmptyBuffer)
            } else {
                Ok::<(), EditError>(())
            },
            final(self)@.wf(),
    {
        proof {
            use_type_invariant(&*self);
        }
        let cursor: usize = self.current_line;
        let n: usize = self.lines.len();
        if delta >= 0 {
            let last: usize = if n == 0 {
                0
            } else {
                n - 1
            };
            let forward: usize = delta as usize;
            if forward >= last - cursor {
                self.current_line = last;
            } else {
                self.current_line = cursor + forward;
            }
            Ok(())
        } else {
            let back: usize = (-(delta + 1)) as usize + 1;
            if back > cursor {
                self.current_line = 0;
                Err(EditError::EmptyBuffer)
            } else {
                self.current_line = cursor - back;
                Ok(())
            }
        }
    }

    /// Empties the buffer and its name.
    pub fn clear(&mut self)
        ensures
            final(self)@ == old(self)@.clear(),
            final(self)@.wf(),
    {
        let _ = self.take();
        self.buffer_name = String::new();
        assert(texts(self.lines@) =~= Seq::<Seq<char>>::empty());
    }

    /// Replaces the lines by those of the file text `text` and sets the
    /// cursor on the last of them.
    pub fn load(&mut self, text: &str)
        ensures
            final(self)@ == old(self)@.load(text@),
            final(self)@.wf(),
    {
        let _ = self.take();
        let lines = split(text);
        let last: usize = if lines.len() == 0 {
            0
        } else {
            lines.len() - 1
        };
        self.put(lines, last);
    }

    /// Index and text of every line that contains `pat` as a literal
    /// substring, in line order.
    pub fn search(&self, pat: &str) -> (found: Vec<(usize, String)>)
        ensures
            hits_of(found@) == self@.search(pat@),
    {
        let needle = chars_of(pat);
        let mut found: Vec<(usize, String)> = Vec::new();
        let mut i: usize = 0;
        assert(hits_of(found@) =~= self@.hits_in(pat@, 0));
        while i < self.lines.len()
            invariant
                i <= self.lines@.len(),
                needle@ == pat@,
                hits_of(found@) == self@.hits_in(pat@, i as nat),
            decreases self.lines@.len() - i,
        {
            let line = chars_of(self.lines[i].as_str());
            if chars_contain(&line, &needle) {
                let ghost before = found@;
                found.push((i, self.lines[i].clone()));
                assert(hits_of(found@) =~= hits_of(before).push(
                    (i as nat, self.lines@[i as int]@),
                ));
            }
            i += 1;
        }
        found
    }

    /// The text of the file that holds the buffer: each line followed by a
    /// line feed.
    pub fn serialize(&self) -> (text: String)
        ensures
            text@ == self@.serialize(),
    {
        join(&self.lines)
    }
}

} // verus!
