//! What holds of every session, proved from the definitions.

use vstd::prelude::*;
use crate::buffer::{Buffer, EditError};
use crate::command::{parse_line, CommandView, Verb};
use crate::lines::{joined, lemma_line_end, plain_line, split_lines};
use crate::number::{all_digits, decimal, digit_char, digits_value, is_digit, parse_index};
use crate::session::{failure, startup, ActionView, EventView, Machine, SourceView, WriteMode};
use crate::text::contains;

verus! {

/// The input line that appends `text`: a plus sign, the text, a line feed.
pub open spec fn append_line(text: Seq<char>) -> EventView {
    EventView::Line(seq!['+'] + text + seq!['\n'])
}

/// The session after a sequence of events, one after the other.
pub open spec fn run(start: Machine, events: Seq<EventView>) -> Machine
    decreases events.len(),
{
    if events.len() == 0 {
        start
    } else {
        run(start, events.drop_last()).step(events.last()).0
    }
}

/// Every event leaves the cursor on a line of the buffer, or at 0 in an
/// empty one.
pub proof fn law_cursor_stays_in_buffer(m: Machine, event: EventView)
    requires
        m.buffer.wf(),
    ensures
        m.step(event).0.buffer.wf(),
{
}

/// The line that appends `text` is read as the command to append it.
pub proof fn law_append_line_reads_back(text: Seq<char>)
    ensures
        parse_line(append_line(text)->Line_0) == Some(CommandView { verb: Verb::Append, arg: text }),
{
    let raw = seq!['+'] + text + seq!['\n'];
    let line = seq!['+'] + text;
    assert(raw.drop_last() =~= line);
    assert(line[0] == '+');
    if text.len() > 0 {
        assert(line.skip(1) =~= text);
    } else {
        assert(text =~= Seq::<char>::empty());
    }
}

/// Appending to an empty buffer, line by line, yields the appended texts in
/// their order, with the cursor on the last of them.
pub proof fn law_appends_in_order(m: Machine, appended: Seq<Seq<char>>)
    requires
        m.buffer.wf(),
        m.buffer.lines.len() == 0,
    ensures
        run(m, appended.map_values(|t: Seq<char>| append_line(t))).buffer.lines == appended,
        appended.len() > 0 ==> run(
            m,
            appended.map_values(|t: Seq<char>| append_line(t)),
        ).buffer.cursor == appended.len() - 1,
        appended.len() == 0 ==> run(
            m,
            appended.map_values(|t: Seq<char>| append_line(t)),
        ).buffer.cursor == 0,
    decreases appended.len(),
{
    let events = appended.map_values(|t: Seq<char>| append_line(t));
    if appended.len() == 0 {
        assert(m.buffer.lines =~= appended);
    } else {
        let earlier = appended.drop_last();
        let text = appended.last();
        law_appends_in_order(m, earlier);
        assert(events.drop_last() =~= earlier.map_values(|t: Seq<char>| append_line(t)));
        assert(events.last() == append_line(text));
        law_append_line_reads_back(text);
        let before = run(m, events.drop_last());
        assert(before.buffer.lines == earlier);
        let after = before.step(events.last()).0;
        assert(after.buffer == before.buffer.insert_at_cursor_forward(text));
        assert(after.buffer.lines =~= appended);
    }
}

/// Inserting a line after the current one and then removing the current
/// line leaves the lines, and so their number, as they were.
pub proof fn law_insert_then_remove(m: Machine, text: Seq<char>)
    requires
        m.buffer.wf(),
    ensures
        ({
            let inserted = m.execute(Verb::Insert, text).0;
            let removed = inserted.execute(Verb::Remove, Seq::empty());
            &&& inserted.buffer.lines.len() == m.buffer.lines.len() + 1
            &&& removed.1 == ActionView::Continue
            &&& removed.0.buffer.lines == m.buffer.lines
        }),
{
    let inserted = m.execute(Verb::Insert, text).0;
    let removed = inserted.execute(Verb::Remove, Seq::empty());
    assert(removed.0.buffer.lines =~= m.buffer.lines);
}

/// Index and text of every match belong to a line that contains the
/// pattern, the matches stand in line order, and no such line is left out.
pub proof fn law_search_finds_all(b: Buffer, pat: Seq<char>, n: nat)
    requires
        n <= b.lines.len(),
    ensures
        forall|k: int|
            0 <= k < b.hits_in(pat, n).len() ==> {
                let hit = #[trigger] b.hits_in(pat, n)[k];
                hit.0 < n && hit.1 == b.lines[hit.0 as int] && contains(hit.1, pat)
            },
        forall|j: int, k: int|
            0 <= j < k < b.hits_in(pat, n).len() ==> b.hits_in(pat, n)[j].0 < b.hits_in(
                pat,
                n,
            )[k].0,
        forall|i: int|
            0 <= i < n && contains(b.lines[i], pat) ==> exists|k: int|
                0 <= k < b.hits_in(pat, n).len() && b.hits_in(pat, n)[k].0 == i,
    decreases n,
{
    if n > 0 {
        let earlier = b.hits_in(pat, (n - 1) as nat);
        let all = b.hits_in(pat, n);
        law_search_finds_all(b, pat, (n - 1) as nat);
        assert forall|i: int| 0 <= i < n && contains(b.lines[i], pat) implies exists|k: int|
            0 <= k < all.len() && all[k].0 == i by {
            if i < n - 1 {
                let k = choose|k: int| 0 <= k < earlier.len() && earlier[k].0 == i;
                assert(all[k].0 == i);
            } else {
                assert(all[all.len() - 1].0 == i);
            }
        }
    }
}

/// Lines written out as a file's text and read back are the same lines,
/// provided that none holds a line feed or ends in a carriage return.
pub proof fn law_lines_round_trip(lines: Seq<Seq<char>>)
    requires
        forall|i: int| 0 <= i < lines.len() ==> plain_line(#[trigger] lines[i]),
    ensures
        split_lines(joined(lines)) == lines,
    decreases lines.len(),
{
    if lines.len() == 0 {
        assert(split_lines(joined(lines)) =~= lines);
    } else {
        let first = lines[0];
        let rest = lines.drop_first();
        let text = joined(lines);
        assert(plain_line(first));
        assert forall|i: int| 0 <= i < rest.len() implies plain_line(#[trigger] rest[i]) by {
            assert(rest[i] == lines[i + 1]);
        }
        law_lines_round_trip(rest);
        let k = first.len() as int;
        assert(text[k] == '\n');
        assert forall|j: int| 0 <= j < k implies text[j] != '\n' by {
            assert(text[j] == first[j]);
        }
        lemma_line_end(text, k);
        assert(text.take(k) =~= first);
        assert(text.skip(k + 1) =~= joined(rest));
        assert(seq![first] + rest =~= lines);
    }
}

/// Writing the buffer and reading the written text back reproduces its
/// lines, whichever kind of source the session has, provided that no line
/// holds a line feed or ends in a carriage return.
pub proof fn law_write_then_load(m: Machine)
    requires
        forall|i: int| 0 <= i < m.buffer.lines.len() ==> plain_line(#[trigger] m.buffer.lines[i]),
    ensures
        ({
            let (written, asked) = m.execute(Verb::Write, Seq::empty());
            &&& written == m
            &&& asked is WriteFile
            &&& asked->contents == joined(m.buffer.lines)
            &&& written.step(EventView::FileRead(asked->contents)).0.buffer.lines
                == m.buffer.lines
        }),
{
    law_lines_round_trip(m.buffer.lines);
}

/// Stepping back from line 0 is reported as `EmptyBuffer` and leaves the
/// session as it was, however often it is done.
pub proof fn law_backward_at_start(m: Machine)
    requires
        m.buffer.cursor == 0,
    ensures
        m.execute(Verb::Backward, Seq::empty()) == (m, failure(EditError::EmptyBuffer)),
{
}

/// Going to a line beyond the buffer is reported as `IndexOutOfRange` and
/// leaves the session as it was.
pub proof fn law_goto_beyond_buffer(m: Machine, arg: Seq<char>)
    requires
        parse_index(arg) is Some,
        parse_index(arg)->0 >= m.buffer.lines.len(),
    ensures
        m.execute(Verb::Goto, arg) == (m, failure(EditError::IndexOutOfRange)),
{
}

/// A session started on a file that cannot be read goes on with an empty
/// buffer that still belongs to that file: the failure is reported, and a
/// later write asks for the file to be created at that path.
pub proof fn law_missing_file_at_startup(path: Seq<char>, cause: Seq<char>)
    requires
        path.len() > 0,
    ensures
        ({
            let begun = startup(seq![path]);
            let (failed, report) = begun->Ok_0.0.step(EventView::FileReadFailed(cause));
            &&& begun is Ok
            &&& begun->Ok_0.1 == ActionView::ReadFile(path)
            &&& report == ActionView::Report(EditError::IoError, cause)
            &&& failed.buffer.lines.len() == 0
            &&& failed.buffer.wf()
            &&& failed.source == SourceView::Open(path)
            &&& failed.execute(Verb::Write, Seq::empty()).1 == (ActionView::WriteFile {
                path,
                mode: WriteMode::Replace,
                contents: Seq::empty(),
            })
        }),
{
    let begun = startup(seq![path]);
    let failed = begun->Ok_0.0.step(EventView::FileReadFailed(cause)).0;
    assert(split_lines(Seq::<char>::empty()) =~= Seq::<Seq<char>>::empty());
    assert(joined(failed.buffer.lines) =~= Seq::<char>::empty());
}

/// A number written in decimal is made of digits that write that number.
pub proof fn lemma_decimal_digits(n: nat)
    ensures
        decimal(n).len() > 0,
        all_digits(decimal(n)),
        digits_value(decimal(n)) == n,
    decreases n,
{
    if n < 10 {
        let s = decimal(n);
        assert(s.drop_last() =~= Seq::<char>::empty());
        assert(digits_value(s.drop_last()) == 0);
    } else {
        lemma_decimal_digits(n / 10);
        let s = decimal(n);
        assert(s.drop_last() =~= decimal(n / 10));
        assert(s.last() == digit_char(n % 10));
    }
}

/// A line number printed in decimal is read back as that number.
pub proof fn law_decimal_reads_back(n: nat)
    requires
        n <= usize::MAX,
    ensures
        parse_index(decimal(n)) == Some(n),
{
    lemma_decimal_digits(n);
    assert(is_digit(decimal(n)[0]));
}

} // verus!
