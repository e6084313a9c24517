//! The terminal surface: screen geometry and the queue of drawing primitives.
//!
//! Nothing here writes to a device. Each drawing call appends one primitive
//! to the queue; `execute` hands the pending batch to whoever owns the real
//! terminal and leaves the queue empty.

use vstd::prelude::*;

verus! {

/// Terminal dimensions in character cells.
#[derive(Debug, Clone, Copy, PartialEq, Eq, Structural)]
pub struct Size {
    pub width: usize,
    pub height: usize,
}

impl Default for Size {
    /// The zero-area size, used when the real geometry is unknown.
    fn default() -> (size: Size)
        ensures
            size == (Size { width: 0, height: 0 }),
    {
        Size { width: 0, height: 0 }
    }
}

/// A screen coordinate or caret location; `(0, 0)` is the top left cell.
#[derive(Debug, Clone, Copy, PartialEq, Eq, Structural)]
pub struct Position {
    pub col: usize,
    pub row: usize,
}

impl Default for Position {
    /// The top left cell.
    fn default() -> (position: Position)
        ensures
            position == (Position { col: 0, row: 0 }),
    {
        Position { col: 0, row: 0 }
    }
}

/// A drawing primitive waiting to be written to the terminal.
#[derive(Debug, PartialEq, Eq)]
pub enum Command {
    /// Erase the whole screen.
    ClearScreen,
    /// Erase the line the caret is on.
    ClearLine,
    /// Put the caret on the given cell.
    MoveTo { col: u16, row: u16 },
    /// Write text at the caret.
    Print(String),
    /// Make the caret invisible.
    HideCaret,
    /// Make the caret visible.
    ShowCaret,
}

/// What a [`Command`] stands for, with its text as a sequence of characters.
pub enum Primitive {
    ClearScreen,
    ClearLine,
    MoveTo { col: u16, row: u16 },
    Print { text: Seq<char> },
    HideCaret,
    ShowCaret,
}

impl View for Command {
    type V = Primitive;

    open spec fn view(&self) -> Primitive {
        match *self {
            Command::ClearScreen => Primitive::ClearScreen,
            Command::ClearLine => Primitive::ClearLine,
            Command::MoveTo { col, row } => Primitive::MoveTo { col, row },
            Command::Print(text) => Primitive::Print { text: text@ },
            Command::HideCaret => Primitive::HideCaret,
            Command::ShowCaret => Primitive::ShowCaret,
        }
    }
}

impl DeepView for Command {
    type V = Primitive;

    open spec fn deep_view(&self) -> Primitive {
        self@
    }
}

/// The caret move that a position turns into: the terminal addresses cells
/// with 16 bits, so only the low 16 bits of each coordinate are kept.
pub open spec fn caret_move(position: Position) -> Primitive {
    Primitive::MoveTo {
        col: (position.col % 0x1_0000) as u16,
        row: (position.row % 0x1_0000) as u16,
    }
}

/// The primitives that prepare a fresh screen.
pub open spec fn initial_primitives() -> Seq<Primitive> {
    seq![Primitive::ClearScreen, caret_move(Position { col: 0, row: 0 })]
}

/// The size to work with after a size query: what the query gave, or the
/// zero-area size when it failed.
pub open spec fn size_or_default(queried: std::io::Result<Size>) -> Size {
    match queried {
        Ok(size) => size,
        Err(_) => Size { width: 0, height: 0 },
    }
}

/// The queue of drawing primitives that have not been written yet.
#[derive(Debug)]
pub struct Terminal {
    queue: Vec<Command>,
}

impl View for Terminal {
    type V = Seq<Primitive>;

    /// The pending primitives, oldest first.
    closed spec fn view(&self) -> Seq<Primitive> {
        self.queue.deep_view()
    }
}

impl Terminal {
    /// A terminal with nothing queued.
    pub fn new() -> (terminal: Terminal)
        ensures
            terminal@ == Seq::<Primitive>::empty(),
    {
        Terminal { queue: Vec::new() }
    }

    /// Appends one primitive to the queue.
    fn queue_command(&mut self, command: Command)
        ensures
            final(self)@ == old(self)@.push(command@),
    {
        self.queue.push(command);
    }

    /// Queues what a fresh screen needs: the screen is cleared and the caret
    /// goes to the top left cell.
    pub fn initialize(&mut self)
        ensures
            final(self)@ == old(self)@ + initial_primitives(),
    {
        self.clear_screen();
        self.move_caret_to(Position::default());
    }

    /// Queues the erasure of the whole screen.
    pub fn clear_screen(&mut self)
        ensures
            final(self)@ == old(self)@.push(Primitive::ClearScreen),
    {
        self.queue_command(Command::ClearScreen);
    }

    /// Queues the erasure of the caret's line.
    pub fn clear_line(&mut self)
        ensures
            final(self)@ == old(self)@.push(Primitive::ClearLine),
    {
        self.queue_command(Command::ClearLine);
    }

    /// Queues `message` to be written at the caret.
    pub fn print(&mut self, message: &str)
        ensures
            final(self)@ == old(self)@.push(Primitive::Print { text: message@ }),
    {
        self.queue_command(Command::Print(message.to_owned()));
    }

    /// Queues a caret move to `position`, of which the low 16 bits of each
    /// coordinate are kept.
    pub fn move_caret_to(&mut self, position: Position)
        ensures
            final(self)@ == old(self)@.push(caret_move(position)),
    {
        let col: u16 = (position.col % 0x1_0000) as u16;
        let row: u16 = (position.row % 0x1_0000) as u16;
        self.queue_command(Command::MoveTo { col, row });
    }

    /// Queues hiding the caret.
    pub fn hide_caret(&mut self)
        ensures
            final(self)@ == old(self)@.push(Primitive::HideCaret),
    {
        self.queue_command(Command::HideCaret);
    }

    /// Queues showing the caret.
    pub fn show_caret(&mut self)
        ensures
            final(self)@ == old(self)@.push(Primitive::ShowCaret),
    {
        self.queue_command(Command::ShowCaret);
    }

    /// Turns what the terminal reported as `(columns, rows)` into a [`Size`];
    /// a failed query is handed back as it came.
    pub fn size(reported: std::io::Result<(u16, u16)>) -> (size: std::io::Result<Size>)
        ensures
            (match reported {
                Ok((columns, rows)) => size is Ok && size->Ok_0.width == columns
                    && size->Ok_0.height == rows,
                Err(error) => size == Err::<Size, std::io::Error>(error),
            }),
    {
        match reported {
            Ok((columns, rows)) => Ok(Size { width: columns as usize, height: rows as usize }),
            Err(error) => Err(error),
        }
    }

    /// Settles the outcome of a size query: a failed query counts as a
    /// screen without area.
    pub fn size_or_default(queried: std::io::Result<Size>) -> (size: Size)
        ensures
            size == size_or_default(queried),
    {
        match queried {
            Ok(size) => size,
            Err(_) => Size::default(),
        }
    }

    /// Takes the pending batch out of the queue, oldest primitive first.
    /// Writing the batch and flushing it is the caller's part.
    pub fn execute(&mut self) -> (batch: Vec<Command>)
        ensures
            batch.deep_view() == old(self)@,
            final(self)@ == Seq::<Primitive>::empty(),
    {
        let mut batch: Vec<Command> = Vec::new();
        std::mem::swap(&mut self.queue, &mut batch);
        batch
    }
}

} // verus!
