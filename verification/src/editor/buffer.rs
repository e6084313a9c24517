//! The line buffer: the text of a document, one entry per line.

use vstd::prelude::*;

verus! {

/// Where the first line of `text` ends: the index of its first line feed, or
/// the length of `text` when it holds none.
pub open spec fn line_end(text: Seq<char>) -> int
    decreases text.len(),
{
    if text.len() == 0 || text[0] == '\n' {
        0
    } else {
        1 + line_end(text.drop_first())
    }
}

/// A terminated line without the carriage return that may stand before its
/// line feed.
pub open spec fn without_carriage_return(line: Seq<char>) -> Seq<char> {
    if line.len() > 0 && line.last() == '\r' {
        line.drop_last()
    } else {
        line
    }
}

/// The lines of `text`. A line ends with a line feed, or with a carriage
/// return and a line feed; neither is part of the line. What follows the last
/// line feed is a line of its own unless it is empty, so a final terminator
/// adds no empty line, and a carriage return that no line feed follows stays
/// in its line.
pub open spec fn split_lines(text: Seq<char>) -> Seq<Seq<char>>
    decreases text.len(),
{
    let end = line_end(text);
    if text.len() == 0 {
        Seq::empty()
    } else if end == text.len() {
        seq![text]
    } else {
        proof {
            lemma_line_end(text);
        }
        seq![without_carriage_return(text.take(end))] + split_lines(text.skip(end + 1))
    }
}

/// `line_end` stays inside the text, no line feed stands before it, and one
/// stands at it unless it is the end of the text.
pub proof fn lemma_line_end(text: Seq<char>)
    ensures
        0 <= line_end(text) <= text.len(),
        forall|i: int| 0 <= i < line_end(text) ==> text[i] != '\n',
        line_end(text) < text.len() ==> text[line_end(text)] == '\n',
    decreases text.len(),
{
    if text.len() > 0 && text[0] != '\n' {
        let rest = text.drop_first();
        lemma_line_end(rest);
        assert forall|i: int| 0 <= i < line_end(text) implies text[i] != '\n' by {
            if i > 0 {
                assert(text[i] == rest[i - 1]);
            }
        }
    }
}

/// The first place without a line feed before it that is the end of the text
/// or holds a line feed is `line_end`.
pub proof fn lemma_line_end_is(text: Seq<char>, end: int)
    requires
        0 <= end <= text.len(),
        forall|i: int| 0 <= i < end ==> text[i] != '\n',
        end < text.len() ==> text[end] == '\n',
    ensures
        line_end(text) == end,
{
    lemma_line_end(text);
}

/// Text that ends a line and text that follows it split independently.
pub proof fn lemma_split_lines_concat(head: Seq<char>, tail: Seq<char>)
    requires
        head.len() == 0 || head.last() == '\n',
    ensures
        split_lines(head + tail) == split_lines(head) + split_lines(tail),
    decreases head.len(),
{
    if head.len() > 0 {
        let whole = head + tail;
        lemma_line_end(head);
        let end = line_end(head);
        lemma_line_end_is(whole, end);
        let rest = head.skip(end + 1);
        assert(whole.skip(end + 1) =~= rest + tail);
        assert(whole.take(end) =~= head.take(end));
        lemma_split_lines_concat(rest, tail);
    }
}

/// A line feed after text that holds none ends exactly one line.
pub proof fn lemma_split_lines_terminated(line: Seq<char>)
    requires
        forall|i: int| 0 <= i < line.len() ==> line[i] != '\n',
    ensures
        split_lines(line.push('\n')) == seq![without_carriage_return(line)],
{
    let text = line.push('\n');
    lemma_line_end_is(text, line.len() as int);
    assert(text.take(line.len() as int) =~= line);
    assert(text.skip(line.len() as int + 1) =~= Seq::<char>::empty());
    assert(split_lines(Seq::<char>::empty()) =~= Seq::<Seq<char>>::empty());
}

/// Text without a line feed is one line, or none when it is empty.
pub proof fn lemma_split_lines_unterminated(line: Seq<char>)
    requires
        forall|i: int| 0 <= i < line.len() ==> line[i] != '\n',
    ensures
        split_lines(line) == (if line.len() == 0 {
            Seq::<Seq<char>>::empty()
        } else {
            seq![line]
        }),
{
    lemma_line_end_is(line, line.len() as int);
}

/// A line feed at the end of text that does not end in one closes the last
/// line and adds none: the lines stay as they were, except that the last one
/// loses the carriage return it may end in.
pub proof fn lemma_final_terminator_adds_no_line(text: Seq<char>)
    requires
        text.len() > 0,
        text.last() != '\n',
    ensures
        split_lines(text).len() > 0,
        split_lines(text.push('\n')) == split_lines(text).drop_last().push(
            without_carriage_return(split_lines(text).last()),
        ),
    decreases text.len(),
{
    lemma_line_end(text);
    let end = line_end(text);
    let closed = text.push('\n');
    if end == text.len() {
        lemma_split_lines_terminated(text);
        assert(seq![text].drop_last().push(without_carriage_return(text)) =~= seq![
            without_carriage_return(text),
        ]);
    } else {
        let first = without_carriage_return(text.take(end));
        let rest = text.skip(end + 1);
        lemma_line_end_is(closed, end);
        assert(closed.take(end) =~= text.take(end));
        assert(closed.skip(end + 1) =~= rest.push('\n'));
        lemma_final_terminator_adds_no_line(rest);
        let below = split_lines(rest);
        let last = without_carriage_return(below.last());
        assert((seq![first] + below).drop_last().push(last) =~= seq![first]
            + below.drop_last().push(last));
    }
}

/// The lines put back together, each followed by a line feed.
pub open spec fn join_lines(lines: Seq<Seq<char>>) -> Seq<char>
    decreases lines.len(),
{
    if lines.len() == 0 {
        Seq::empty()
    } else {
        lines.first().push('\n') + join_lines(lines.drop_first())
    }
}

/// Splitting loses nothing but terminators: the lines of text without
/// carriage returns, each followed by a line feed, are the text again, with a
/// final line feed if it lacked one.
pub proof fn lemma_join_restores_text(text: Seq<char>)
    requires
        forall|i: int| 0 <= i < text.len() ==> text[i] != '\r',
    ensures
        join_lines(split_lines(text)) == (if text.len() == 0 || text.last() == '\n' {
            text
        } else {
            text.push('\n')
        }),
    decreases text.len(),
{
    lemma_line_end(text);
    let end = line_end(text);
    if text.len() == 0 {
    } else if end == text.len() {
        assert(seq![text].drop_first() =~= Seq::<Seq<char>>::empty());
        assert(join_lines(Seq::<Seq<char>>::empty()) =~= Seq::<char>::empty());
    } else {
        let first = text.take(end);
        let rest = text.skip(end + 1);
        lemma_join_restores_text(rest);
        assert((seq![first] + split_lines(rest)).drop_first() =~= split_lines(rest));
    }
}

/// No line holds a line feed.
pub proof fn lemma_lines_hold_no_line_feed(text: Seq<char>)
    ensures
        forall|k: int, i: int|
            0 <= k < split_lines(text).len() && 0 <= i < split_lines(text)[k].len()
                ==> #[trigger] split_lines(text)[k][i] != '\n',
    decreases text.len(),
{
    lemma_line_end(text);
    let end = line_end(text);
    if 0 < text.len() && end < text.len() {
        let below = split_lines(text.skip(end + 1));
        lemma_lines_hold_no_line_feed(text.skip(end + 1));
        assert forall|k: int, i: int|
            0 <= k < split_lines(text).len() && 0 <= i < split_lines(text)[k].len()
            implies #[trigger] split_lines(text)[k][i] != '\n' by {
            if k > 0 {
                assert(split_lines(text)[k] == below[k - 1]);
            }
        }
    }
}

/// The text of a document, one entry per line, top line first.
#[derive(Debug)]
pub struct Buffer {
    pub lines: Vec<String>,
}

impl View for Buffer {
    type V = Seq<Seq<char>>;

    /// The lines as sequences of characters.
    open spec fn view(&self) -> Seq<Seq<char>> {
        self.lines.deep_view()
    }
}

impl Default for Buffer {
    /// The empty document.
    fn default() -> (buffer: Buffer)
        ensures
            buffer@ == Seq::<Seq<char>>::empty(),
    {
        Buffer { lines: Vec::new() }
    }
}

impl Buffer {
    /// Builds a buffer from what reading a file gave: the lines of its
    /// contents, or the read's own error when it failed.
    pub fn load(contents: std::io::Result<String>) -> (buffer: std::io::Result<Buffer>)
        ensures
            (match contents {
                Ok(text) => buffer is Ok && buffer->Ok_0@ == split_lines(text@),
                Err(error) => buffer == Err::<Buffer, std::io::Error>(error),
            }),
    {
        match contents {
            Ok(text) => Ok(Buffer { lines: lines_of(text.as_str()) }),
            Err(error) => Err(error),
        }
    }

    /// Whether the buffer holds no line at all.
    pub fn is_empty(&self) -> (empty: bool)
        ensures
            empty == (self@.len() == 0),
    {
        self.lines.is_empty()
    }
}

/// Splits `text` into its lines in one pass over its characters.
fn lines_of(text: &str) -> (lines: Vec<String>)
    ensures
        lines.deep_view() == split_lines(text@),
{
    let mut lines: Vec<String> = Vec::new();
    let mut current = String::new();
    // A carriage return has been read and not yet stored: whether it belongs
    // to the line depends on the character after it.
    let mut pending: bool = false;
    let ghost mut start: int = 0;
    for c in it: text.chars()
        invariant
            it.seq() == text@,
            0 <= start <= it.index(),
            start == 0 || text@[start - 1] == '\n',
            forall|i: int| start <= i < it.index() ==> text@[i] != '\n',
            lines.deep_view() == split_lines(text@.take(start)),
            !pending && current@.len() > 0 ==> current@.last() != '\r',
            text@.subrange(start, it.index() as int) == (if pending {
                current@.push('\r')
            } else {
                current@
            }),
    {
        let ghost at = it.index() as int;
        if c == '\n' {
            let ghost above = lines.deep_view();
            let ghost ended = current@;
            proof {
                let line = text@.subrange(start, at);
                let head = text@.take(start);
                assert(without_carriage_return(line) == ended) by {
                    if pending {
                        assert(ended.push('\r').drop_last() =~= ended);
                    }
                }
                assert(text@.take(at + 1) =~= head + line.push('\n'));
                lemma_split_lines_concat(head, line.push('\n'));
                lemma_split_lines_terminated(line);
                start = at + 1;
            }
            lines.push(current);
            assert(lines.deep_view() =~= above.push(ended));
            current = String::new();
            pending = false;
        } else {
            if pending {
                current.push('\r');
            }
            if c == '\r' {
                pending = true;
            } else {
                pending = false;
                current.push(c);
            }
        }
    }
    if pending {
        current.push('\r');
    }
    proof {
        let head = text@.take(start);
        let last = text@.skip(start);
        assert(text@ =~= head + last);
        lemma_split_lines_concat(head, last);
        lemma_split_lines_unterminated(last);
    }
    if !current.as_str().is_empty() {
        lines.push(current);
    }
    lines
}

} // verus!
