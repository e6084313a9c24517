//! The viewport: which text each screen row shows, and when it is redrawn.

use crate::editor::buffer::{split_lines, Buffer};
use crate::editor::terminal::{caret_move, size_or_default, Position, Primitive, Size, Terminal};
use vstd::prelude::*;
use vstd::view::View as _;

verus! {

/// The name shown in the greeting.
pub const NAME: &'static str = "hecto";

/// The version shown in the greeting.
pub const VERSION: &'static str = "0.1.0";

/// The greeting of an empty document.
pub open spec fn welcome_text() -> Seq<char> {
    NAME@ + " editor -- version "@ + VERSION@
}

/// The number of spaces between the marker and the greeting on a row of
/// `width` cells that is wider than the greeting: half of what the row has
/// left after the greeting and the marker, rounded down.
pub open spec fn welcome_padding(width: usize) -> nat {
    ((width - welcome_text().len() - 1) / 2) as nat
}

/// The greeting row for a viewport of `width` cells: the marker, the padding
/// that roughly centres the greeting, and the greeting. A viewport too narrow
/// for the greeting gets the bare marker, one without width a single space.
pub open spec fn welcome_message(width: usize) -> Seq<char> {
    if width == 0 {
        " "@
    } else if width <= welcome_text().len() {
        "~"@
    } else {
        "~"@ + Seq::new(welcome_padding(width), |i: int| ' ') + welcome_text()
    }
}

/// What drawing one row queues: the caret goes to the start of the row, the
/// row is erased, and the text is written.
pub open spec fn line_primitives(at: usize, text: Seq<char>) -> Seq<Primitive> {
    seq![
        caret_move(Position { col: 0, row: at }),
        Primitive::ClearLine,
        Primitive::Print { text },
    ]
}

/// What a [`View`] holds: the lines of its buffer, the dirty flag and the
/// size of the screen as last reported.
pub struct ViewModel {
    /// The lines of the buffer, top line first.
    pub lines: Seq<Seq<char>>,
    /// Whether the screen is stale.
    pub needs_redraw: bool,
    /// The size of the screen as last reported.
    pub size: Size,
}

impl ViewModel {
    /// Whether rendering draws anything: the view is dirty and the screen
    /// has an area to draw into.
    pub open spec fn draws(self) -> bool {
        self.needs_redraw && self.size.width != 0 && self.size.height != 0
    }

    /// The text of screen row `row`: the buffer's line of that index cut off
    /// after `width` characters; on the row a third down an empty document,
    /// the greeting; on every other row the marker of a row past the end of
    /// the buffer.
    pub open spec fn row_text(self, row: int) -> Seq<char> {
        if 0 <= row < self.lines.len() {
            let line = self.lines[row];
            if line.len() <= self.size.width {
                line
            } else {
                line.take(self.size.width as int)
            }
        } else if row == self.size.height / 3 && self.lines.len() == 0 {
            welcome_message(self.size.width)
        } else {
            "~"@
        }
    }

    /// What drawing the first `count` rows queues, top row first.
    pub open spec fn rows_drawn(self, count: nat) -> Seq<Primitive>
        decreases count,
    {
        if count == 0 {
            Seq::empty()
        } else {
            self.rows_drawn((count - 1) as nat) + line_primitives(
                (count - 1) as usize,
                self.row_text(count - 1),
            )
        }
    }

    /// What one call of `render` queues: every row of the screen when the
    /// view draws, nothing otherwise.
    pub open spec fn output(self) -> Seq<Primitive> {
        if self.draws() {
            self.rows_drawn(self.size.height as nat)
        } else {
            Seq::empty()
        }
    }

    /// The view after one call of `render`: clean when it drew, untouched
    /// otherwise.
    pub open spec fn rendered(self) -> ViewModel {
        if self.draws() {
            ViewModel { needs_redraw: false, ..self }
        } else {
            self
        }
    }
}

/// A greeting row on a viewport with some width is never wider than the
/// viewport, so it is never cut off.
pub proof fn lemma_welcome_message_fits(width: usize)
    requires
        width > 0,
    ensures
        welcome_message(width).len() <= width,
{
    reveal_strlit("~");
}

/// The three primitives that a frame `drawn` holds for the screen row `row`.
pub open spec fn row_slice(drawn: Seq<Primitive>, row: int) -> Seq<Primitive> {
    drawn.subrange(3 * row, 3 * row + 3)
}

/// Drawing `count` rows queues three primitives for each row, in ascending
/// order of the rows: the caret move to the start of the row, the erasure of
/// the row, and the row's text.
pub proof fn lemma_rows_drawn(view: ViewModel, count: nat)
    ensures
        view.rows_drawn(count).len() == 3 * count,
        forall|row: int|
            0 <= row < count ==> #[trigger] row_slice(view.rows_drawn(count), row)
                == line_primitives(row as usize, view.row_text(row)),
    decreases count,
{
    if count > 0 {
        let above = view.rows_drawn((count - 1) as nat);
        let drawn = view.rows_drawn(count);
        lemma_rows_drawn(view, (count - 1) as nat);
        assert forall|row: int| 0 <= row < count implies #[trigger] row_slice(drawn, row)
            == line_primitives(row as usize, view.row_text(row)) by {
            if row < count - 1 {
                assert(row_slice(drawn, row) =~= row_slice(above, row));
            } else {
                assert(row_slice(drawn, row) =~= line_primitives(
                    row as usize,
                    view.row_text(row),
                ));
            }
        }
    }
}

/// Once `render` has run, a second `render` with no `load` or `resize` in
/// between queues nothing and changes nothing.
pub proof fn lemma_second_render_is_idle(view: ViewModel)
    ensures
        view.rendered().output() == Seq::<Primitive>::empty(),
        view.rendered().rendered() == view.rendered(),
{
}

/// On a screen without width or without height `render` queues nothing and
/// leaves the view, its dirty flag included, as it was.
pub proof fn lemma_no_area_nothing_drawn(view: ViewModel)
    requires
        view.size.width == 0 || view.size.height == 0,
    ensures
        view.output() == Seq::<Primitive>::empty(),
        view.rendered() == view,
{
}

/// A buffer line is shown on the row of its own index as its first `width`
/// characters, or whole when it has no more than that; what does not fit is
/// dropped, not moved to another row.
pub proof fn lemma_line_is_cut_not_wrapped(view: ViewModel, row: int)
    requires
        0 <= row < view.lines.len(),
    ensures
        view.row_text(row).len() == (if view.lines[row].len() <= view.size.width {
            view.lines[row].len()
        } else {
            view.size.width as nat
        }),
        view.row_text(row) == view.lines[row].take(view.row_text(row).len() as int),
{
}

/// An empty document shows the greeting on the row a third of the way down
/// and the marker on every other row.
pub proof fn lemma_empty_document_rows(view: ViewModel, row: int)
    requires
        view.lines.len() == 0,
    ensures
        view.row_text(row) == (if row == view.size.height / 3 {
            welcome_message(view.size.width)
        } else {
            "~"@
        }),
{
}

/// The viewport of a document: its buffer, the size of the screen and the
/// flag that says whether the screen is stale.
#[derive(Debug)]
pub struct View {
    buffer: Buffer,
    needs_redraw: bool,
    size: Size,
}

impl vstd::view::View for View {
    type V = ViewModel;

    /// What the view holds at the moment.
    closed spec fn view(&self) -> ViewModel {
        ViewModel { lines: self.buffer@, needs_redraw: self.needs_redraw, size: self.size }
    }
}

impl View {
    /// The view of an empty document on a screen whose size was just
    /// queried. It starts dirty; a failed query leaves it without area.
    pub fn new(terminal_size: std::io::Result<Size>) -> (view: View)
        ensures
            view@ == (ViewModel {
                lines: Seq::empty(),
                needs_redraw: true,
                size: size_or_default(terminal_size),
            }),
    {
        View {
            buffer: Buffer::default(),
            needs_redraw: true,
            size: Terminal::size_or_default(terminal_size),
        }
    }

    /// The buffer on display.
    pub fn buffer(&self) -> (buffer: &Buffer)
        ensures
            buffer@ == self@.lines,
    {
        &self.buffer
    }

    /// Whether the screen is stale.
    pub fn needs_redraw(&self) -> (dirty: bool)
        ensures
            dirty == self@.needs_redraw,
    {
        self.needs_redraw
    }

    /// The size of the screen as last reported.
    pub fn size(&self) -> (size: Size)
        ensures
            size == self@.size,
    {
        self.size
    }

    /// Takes over what reading a file gave. Contents replace the buffer by
    /// their lines and make the view dirty; a failed read changes nothing.
    pub fn load(&mut self, contents: std::io::Result<String>)
        ensures
            (match contents {
                Ok(text) => final(self)@ == (ViewModel {
                    lines: split_lines(text@),
                    needs_redraw: true,
                    ..old(self)@
                }),
                Err(_) => final(self)@ == old(self)@,
            }),
    {
        if let Ok(buffer) = Buffer::load(contents) {
            self.buffer = buffer;
            self.needs_redraw = true;
        }
    }

    /// Records a new screen size and makes the view dirty. Nothing is drawn.
    pub fn resize(&mut self, to: Size)
        ensures
            final(self)@ == (ViewModel { size: to, needs_redraw: true, ..old(self)@ }),
    {
        self.size = to;
        self.needs_redraw = true;
    }

    /// Queues the redraw of the whole screen, rows in ascending order, and
    /// marks the view clean. A clean view, or a screen without area, queues
    /// nothing and keeps its flag.
    pub fn render(&mut self, terminal: &mut Terminal)
        ensures
            final(self)@ == old(self)@.rendered(),
            final(terminal)@ == old(terminal)@ + old(self)@.output(),
    {
        let ghost model = self@;
        let ghost queued = terminal@;
        if !self.needs_redraw {
            return ;
        }
        let Size { width, height } = self.size;
        if width == 0 || height == 0 {
            return ;
        }
        let vertical_center = height / 3;
        let mut current_row: usize = 0;
        while current_row < height
            invariant
                current_row <= height,
                self@ == model,
                width == model.size.width,
                height == model.size.height,
                vertical_center == height / 3,
                terminal@ == queued + model.rows_drawn(current_row as nat),
            decreases height - current_row,
        {
            if current_row < self.buffer.lines.len() {
                let line = self.buffer.lines[current_row].as_str();
                let length = line.unicode_len();
                let end = if length <= width { length } else { width };
                assert(line@.subrange(0, end as int) =~= model.row_text(current_row as int));
                Self::render_line(terminal, current_row, line.substring_char(0, end));
            } else if current_row == vertical_center && self.buffer.is_empty() {
                let message = Self::build_welcom_message(width);
                Self::render_line(terminal, current_row, message.as_str());
            } else {
                Self::render_line(terminal, current_row, "~");
            }
            current_row = current_row + 1;
        }
        self.needs_redraw = false;
    }

    /// Queues the drawing of one row: the caret goes to the start of row
    /// `at`, the row is erased, and `line_text` is written.
    pub fn render_line(terminal: &mut Terminal, at: usize, line_text: &str)
        ensures
            final(terminal)@ == old(terminal)@ + line_primitives(at, line_text@),
    {
        terminal.move_caret_to(Position { col: 0, row: at });
        terminal.clear_line();
        terminal.print(line_text);
    }

    /// Builds the greeting row for a viewport of `width` cells. It is never
    /// wider than the viewport, except that a viewport without width still
    /// gets one space.
    pub fn build_welcom_message(width: usize) -> (message: String)
        ensures
            message@ == welcome_message(width),
            width > 0 ==> message@.len() <= width,
    {
        proof {
            reveal_strlit(" ");
            reveal_strlit("~");
        }
        if width == 0 {
            return " ".to_owned();
        }
        let mut greeting = NAME.to_owned();
        greeting.append(" editor -- version ");
        greeting.append(VERSION);
        let length = greeting.as_str().unicode_len();
        if width <= length {
            return "~".to_owned();
        }
        let padding = (width - length - 1) / 2;
        let mut message = "~".to_owned();
        let mut spaces: usize = 0;
        while spaces < padding
            invariant
                spaces <= padding,
                " "@ == seq![' '],
                message@ == "~"@ + Seq::new(spaces as nat, |i: int| ' '),
            decreases padding - spaces,
        {
            message.append(" ");
            spaces = spaces + 1;
        }
        message.append(greeting.as_str());
        message
    }
}

} // verus!
