//! The event loop's state and its transitions.
//!
//! An [`Editor`] never blocks and never writes: the caller reads the next
//! event and the screen size, hands both to `evaluate_event`, and writes the
//! batch that `refresh_screen` returns.

pub mod buffer;
pub mod event;
pub mod terminal;
pub mod view;

use crate::editor::buffer::split_lines;
use crate::editor::event::{Event, KeyCode, KeyEvent};
use crate::editor::terminal::{
    caret_move, initial_primitives, size_or_default, Command, Position, Primitive, Size, Terminal,
};
use crate::editor::view::ViewModel;
use vstd::prelude::*;

verus! {

/// Where the caret stands: `x` is the column, `y` the row.
#[derive(Debug, Clone, Copy, PartialEq, Eq, Structural)]
pub struct Location {
    pub x: usize,
    pub y: usize,
}

impl Default for Location {
    /// The top left cell.
    fn default() -> (location: Location)
        ensures
            location == (Location { x: 0, y: 0 }),
    {
        Location { x: 0, y: 0 }
    }
}

impl From<Location> for Position {
    fn from(location: Location) -> (position: Position) {
        Position { col: location.x, row: location.y }
    }
}

impl vstd::std_specs::convert::FromSpecImpl<Location> for Position {
    open spec fn obeys_from_spec() -> bool {
        true
    }

    /// The cell of the same column and row.
    open spec fn from_spec(location: Location) -> Position {
        Position { col: location.x, row: location.y }
    }
}

/// Whether `code` is one of the keys that move the caret along its row:
/// Left, Right, `h`, `l`, Home or End.
pub open spec fn moves_column(code: KeyCode) -> bool {
    match code {
        KeyCode::Left | KeyCode::Right | KeyCode::Home | KeyCode::End => true,
        KeyCode::Char(c) => c == 'h' || c == 'l',
        _ => false,
    }
}

/// Whether `code` is one of the keys that move the caret along its column:
/// Up, Down, `k`, `j`, PageUp or PageDown.
pub open spec fn moves_row(code: KeyCode) -> bool {
    match code {
        KeyCode::Up | KeyCode::Down | KeyCode::PageUp | KeyCode::PageDown => true,
        KeyCode::Char(c) => c == 'k' || c == 'j',
        _ => false,
    }
}

/// Whether `code` is one of the keys that move the caret: an arrow, one of
/// `h`, `j`, `k`, `l`, or PageUp, PageDown, Home, End.
pub open spec fn moves_caret(code: KeyCode) -> bool {
    moves_column(code) || moves_row(code)
}

/// One step back along an axis that ends at `bound`: one less, but not below
/// 0 and not beyond `bound`.
pub open spec fn step_back(at: usize, bound: usize) -> usize {
    if at == 0 {
        0
    } else if at - 1 < bound {
        (at - 1) as usize
    } else {
        bound
    }
}

/// One step forward along an axis that ends at `bound`: one more, but not
/// beyond `bound`.
pub open spec fn step_forward(at: usize, bound: usize) -> usize {
    if at < bound {
        (at + 1) as usize
    } else {
        bound
    }
}

/// Where the caret stands after the key `code` on a screen of `size`.
///
/// Up and Left step back by one and stop at 0; Down and Right step forward by
/// one. Either way the coordinate that moves is held to the height or the
/// width of the screen, so a caret that a resize left beyond the screen comes
/// back onto it along that axis. PageUp and Home go to 0, PageDown to the
/// last row, End to the width, one past the last column. Only one coordinate
/// changes, and no other key moves the caret.
pub open spec fn moved(location: Location, code: KeyCode, size: Size) -> Location {
    let Location { x, y } = location;
    if code == KeyCode::Up || code == KeyCode::Char('k') {
        Location { x, y: step_back(y, size.height) }
    } else if code == KeyCode::Down || code == KeyCode::Char('j') {
        Location { x, y: step_forward(y, size.height) }
    } else if code == KeyCode::Left || code == KeyCode::Char('h') {
        Location { x: step_back(x, size.width), y }
    } else if code == KeyCode::Right || code == KeyCode::Char('l') {
        Location { x: step_forward(x, size.width), y }
    } else if code == KeyCode::PageUp {
        Location { x, y: 0 }
    } else if code == KeyCode::PageDown {
        Location { x, y: if size.height == 0 { 0 } else { (size.height - 1) as usize } }
    } else if code == KeyCode::Home {
        Location { x: 0, y }
    } else if code == KeyCode::End {
        Location { x: size.width, y }
    } else {
        location
    }
}

/// Whether `location` lies on a screen of `size` or one past its last column
/// or row.
pub open spec fn on_screen(location: Location, size: Size) -> bool {
    location.x <= size.width && location.y <= size.height
}

/// Where the caret stands after the keys `codes`, in their order, on a
/// screen that keeps the size `size`.
pub open spec fn moved_through(location: Location, codes: Seq<KeyCode>, size: Size) -> Location
    decreases codes.len(),
{
    if codes.len() == 0 {
        location
    } else {
        moved(moved_through(location, codes.drop_last(), size), codes.last(), size)
    }
}

/// One key changes one coordinate at most. The coordinate that a key moves
/// is on the screen afterwards, wherever the caret stood before; the one that
/// it does not move stays as it was.
pub proof fn lemma_moved_coordinate(location: Location, code: KeyCode, size: Size)
    ensures
        moved(location, code, size).x == location.x || moved(location, code, size).y
            == location.y,
        moves_column(code) ==> moved(location, code, size).x <= size.width,
        moves_row(code) ==> moved(location, code, size).y <= size.height,
        !moves_column(code) ==> moved(location, code, size).x == location.x,
        !moves_row(code) ==> moved(location, code, size).y == location.y,
{
}

/// A caret that starts on the screen is on the screen after every key of
/// every sequence of keys, as long as the screen keeps its size.
pub proof fn lemma_caret_stays_on_screen(start: Location, codes: Seq<KeyCode>, size: Size)
    requires
        on_screen(start, size),
    ensures
        forall|count: int|
            0 <= count <= codes.len() ==> on_screen(
                #[trigger] moved_through(start, codes.take(count), size),
                size,
            ),
    decreases codes.len(),
{
    assert forall|count: int| 0 <= count <= codes.len() implies on_screen(
        #[trigger] moved_through(start, codes.take(count), size),
        size,
    ) by {
        if count < codes.len() {
            lemma_caret_stays_on_screen(start, codes.drop_last(), size);
            assert(codes.drop_last().take(count) =~= codes.take(count));
        } else {
            assert(codes.take(count) =~= codes);
            if codes.len() > 0 {
                lemma_caret_stays_on_screen(start, codes.drop_last(), size);
                let shorter = codes.drop_last();
                assert(shorter.take(shorter.len() as int) =~= shorter);
                lemma_moved_coordinate(moved_through(start, shorter, size), codes.last(), size);
            }
        }
    }
}

/// From any start, on the screen or not: after a sequence of keys the column
/// is on the screen as soon as one key of the sequence moves the caret along
/// its row, and is the column of the start otherwise. The same holds of the
/// row and the keys that move the caret along its column.
pub proof fn lemma_caret_returns_to_screen(start: Location, codes: Seq<KeyCode>, size: Size)
    ensures
        moved_through(start, codes, size).x <= size.width || (moved_through(
            start,
            codes,
            size,
        ).x == start.x && forall|i: int| 0 <= i < codes.len() ==> !moves_column(codes[i])),
        moved_through(start, codes, size).y <= size.height || (moved_through(
            start,
            codes,
            size,
        ).y == start.y && forall|i: int| 0 <= i < codes.len() ==> !moves_row(codes[i])),
    decreases codes.len(),
{
    if codes.len() > 0 {
        let shorter = codes.drop_last();
        lemma_caret_returns_to_screen(start, shorter, size);
        lemma_moved_coordinate(moved_through(start, shorter, size), codes.last(), size);
        assert(forall|i: int| 0 <= i < shorter.len() ==> shorter[i] == codes[i]);
    }
}

/// Whatever came before, Home puts the caret in column 0 and End in the
/// column one past the last, which is the width of the screen.
pub proof fn lemma_home_and_end(start: Location, codes: Seq<KeyCode>, size: Size)
    ensures
        moved_through(start, codes.push(KeyCode::Home), size).x == 0,
        moved_through(start, codes.push(KeyCode::End), size).x == size.width,
{
}

/// Whether `event` is the quit chord: `q` with control and no other
/// modifier.
pub open spec fn is_quit_chord(event: KeyEvent) -> bool {
    event.code == KeyCode::Char('q') && event.modifiers.only_control()
}

/// A key that is neither the quit chord nor a caret key changes nothing.
pub proof fn lemma_other_keys_change_nothing(state: EditorModel, event: KeyEvent, size: Size)
    requires
        !is_quit_chord(event),
        !moves_caret(event.code),
    ensures
        state.after_key(event, size) == state,
{
}

/// What the farewell writes: the screen is cleared and the parting line
/// printed.
pub open spec fn farewell_primitives() -> Seq<Primitive> {
    seq![Primitive::ClearScreen, Primitive::Print { text: "Goodbye.\r\n"@ }]
}

/// What an [`Editor`] holds.
pub struct EditorModel {
    /// Whether the quit chord was seen.
    pub should_quit: bool,
    /// Where the caret stands.
    pub location: Location,
    /// The viewport.
    pub view: ViewModel,
    /// The drawing primitives queued and not yet handed out.
    pub queue: Seq<Primitive>,
}

impl EditorModel {
    /// The state after a key press, on a screen of `size`: the quit chord
    /// asks to quit, a caret key moves the caret, any other key does nothing.
    pub open spec fn after_key(self, event: KeyEvent, size: Size) -> EditorModel {
        if is_quit_chord(event) {
            EditorModel { should_quit: true, ..self }
        } else {
            EditorModel { location: moved(self.location, event.code, size), ..self }
        }
    }

    /// The state after an event, given what the size query made on its
    /// arrival returned. A resize reaches the view and leaves the caret
    /// where it is.
    pub open spec fn after_event(
        self,
        event: Event,
        terminal_size: std::io::Result<Size>,
    ) -> EditorModel {
        match event {
            Event::Key(key) => self.after_key(key, size_or_default(terminal_size)),
            Event::Resize(width, height) => EditorModel {
                view: ViewModel {
                    size: Size { width: width as usize, height: height as usize },
                    needs_redraw: true,
                    ..self.view
                },
                ..self
            },
            Event::Other => self,
        }
    }

    /// What one refresh of the screen writes: whatever was still queued,
    /// then the caret is hidden, the view redrawn, and the caret put back at
    /// its location and shown.
    pub open spec fn refresh_output(self) -> Seq<Primitive> {
        self.queue + seq![Primitive::HideCaret] + self.view.output() + seq![
            caret_move(Position { col: self.location.x, row: self.location.y }),
            Primitive::ShowCaret,
        ]
    }
}

/// The editor: the caret, the viewport, the quit flag and the terminal they
/// draw on.
#[derive(Debug)]
pub struct Editor {
    should_quit: bool,
    location: Location,
    view: view::View,
    terminal: Terminal,
}

impl View for Editor {
    type V = EditorModel;

    /// What the editor holds at the moment.
    closed spec fn view(&self) -> EditorModel {
        EditorModel {
            should_quit: self.should_quit,
            location: self.location,
            view: self.view@,
            queue: self.terminal@,
        }
    }
}

impl Editor {
    /// Sets the editor up on a terminal that has just been put into raw
    /// mode. `terminal_size` is what the size query returned, `file` what
    /// reading the file named on the command line gave, if one was named.
    ///
    /// The caret starts at the top left, the view dirty, and the primitives
    /// of a fresh screen are queued. A file that could not be read leaves
    /// the document empty.
    pub fn new(
        terminal_size: std::io::Result<Size>,
        file: Option<std::io::Result<String>>,
    ) -> (editor: Editor)
        ensures
            editor@ == (EditorModel {
                should_quit: false,
                location: Location { x: 0, y: 0 },
                view: ViewModel {
                    lines: match file {
                        Some(Ok(text)) => split_lines(text@),
                        _ => Seq::empty(),
                    },
                    needs_redraw: true,
                    size: size_or_default(terminal_size),
                },
                queue: initial_primitives(),
            }),
    {
        let mut terminal = Terminal::new();
        terminal.initialize();
        let mut view = view::View::new(terminal_size);
        if let Some(contents) = file {
            view.load(contents);
        }
        Editor { should_quit: false, location: Location::default(), view, terminal }
    }

    /// Whether the quit chord was seen.
    pub fn should_quit(&self) -> (quit: bool)
        ensures
            quit == self@.should_quit,
    {
        self.should_quit
    }

    /// Where the caret stands.
    pub fn location(&self) -> (location: Location)
        ensures
            location == self@.location,
    {
        self.location
    }

    /// The viewport.
    pub fn viewport(&self) -> (viewport: &view::View)
        ensures
            viewport@ == self@.view,
    {
        &self.view
    }

    /// Takes one event in. `terminal_size` is what the size query made on
    /// the event's arrival returned; a failed query counts as a screen
    /// without area.
    pub fn evaluate_event(&mut self, event: &Event, terminal_size: std::io::Result<Size>)
        ensures
            final(self)@ == old(self)@.after_event(*event, terminal_size),
    {
        match event {
            Event::Key(key) => self.evaluate_key_event(key, terminal_size),
            Event::Resize(width, height) => {
                let height = *height as usize;
                let width = *width as usize;
                self.view.resize(Size { width, height });
            },
            Event::Other => (),
        }
    }

    /// Takes one key press in: the quit chord asks to quit, a caret key
    /// moves the caret, any other key is ignored.
    pub fn evaluate_key_event(&mut self, event: &KeyEvent, terminal_size: std::io::Result<Size>)
        ensures
            final(self)@ == old(self)@.after_key(*event, size_or_default(terminal_size)),
    {
        match event.code {
            KeyCode::Char('q') if event.modifiers.is_only_control() => {
                self.should_quit = true;
            },
            KeyCode::Up
            | KeyCode::Down
            | KeyCode::Left
            | KeyCode::Right
            | KeyCode::Char('h' | 'j' | 'k' | 'l')
            | KeyCode::PageUp
            | KeyCode::PageDown
            | KeyCode::Home
            | KeyCode::End => self.move_point(event.code, terminal_size),
            _ => (),
        }
    }

    /// Moves the caret as the key `code` asks, within the screen that the
    /// size query reported.
    pub fn move_point(&mut self, code: KeyCode, terminal_size: std::io::Result<Size>)
        ensures
            final(self)@ == (EditorModel {
                location: moved(old(self)@.location, code, size_or_default(terminal_size)),
                ..old(self)@
            }),
    {
        let size = Terminal::size_or_default(terminal_size);
        match code {
            KeyCode::Up | KeyCode::Char('k') => {
                let above = self.location.y.saturating_sub(1);
                self.location.y = if above < size.height { above } else { size.height };
            },
            KeyCode::Down | KeyCode::Char('j') => {
                let below = self.location.y.saturating_add(1);
                self.location.y = if below < size.height { below } else { size.height };
            },
            KeyCode::Left | KeyCode::Char('h') => {
                let left = self.location.x.saturating_sub(1);
                self.location.x = if left < size.width { left } else { size.width };
            },
            KeyCode::Right | KeyCode::Char('l') => {
                let right = self.location.x.saturating_add(1);
                self.location.x = if right < size.width { right } else { size.width };
            },
            KeyCode::PageUp => self.location.y = 0,
            KeyCode::PageDown => self.location.y = size.height.saturating_sub(1),
            KeyCode::Home => self.location.x = 0,
            KeyCode::End => self.location.x = size.width,
            _ => (),
        }
    }

    /// Draws one frame and hands out the batch to write: the caret is
    /// hidden, the view redrawn if it is dirty, and the caret put back at its
    /// location and shown. Nothing stays queued.
    pub fn refresh_screen(&mut self) -> (batch: Vec<Command>)
        ensures
            batch.deep_view() == old(self)@.refresh_output(),
            final(self)@ == (EditorModel {
                view: old(self)@.view.rendered(),
                queue: Seq::empty(),
                ..old(self)@
            }),
    {
        self.terminal.hide_caret();
        self.view.render(&mut self.terminal);
        self.terminal.move_caret_to(Position::from(self.location));
        self.terminal.show_caret();
        self.terminal.execute()
    }

    /// Hands out what is left to write when the editor shuts down: whatever
    /// was still queued and, if the quit chord was seen, a cleared screen and
    /// the parting line. The caller writes it before it restores the
    /// terminal.
    pub fn farewell(&mut self) -> (batch: Vec<Command>)
        ensures
            batch.deep_view() == old(self)@.queue + (if old(self)@.should_quit {
                farewell_primitives()
            } else {
                Seq::empty()
            }),
            final(self)@ == (EditorModel { queue: Seq::empty(), ..old(self)@ }),
    {
        if self.should_quit {
            self.terminal.clear_screen();
            self.terminal.print("Goodbye.\r\n");
        }
        self.terminal.execute()
    }
}

} // verus!
