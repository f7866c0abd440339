//! The live view: the captured entries in the order in which they came, and
//! the way in which they are currently decoded for display. Every change
//! gives the frame to paint; painting it is left to the caller.

use crate::draw::{
    all_lines, fill, fill_text, log, log_text, status_line, status_text, Colour, LogEntry,
};
use crate::text::string_views;
use vstd::prelude::*;

verus! {

/// How captured bytes are decoded for display.
#[derive(Debug, PartialEq, Eq)]
pub enum Encoding {
    Hex,
    Text,
    Protocol(String),
}

/// What an `Encoding` holds, as a mathematical value.
pub enum EncodingView {
    Hex,
    Text,
    Protocol(Seq<char>),
}

impl View for Encoding {
    type V = EncodingView;

    open spec fn view(&self) -> EncodingView {
        match self {
            Encoding::Hex => EncodingView::Hex,
            Encoding::Text => EncodingView::Text,
            Encoding::Protocol(name) => EncodingView::Protocol(name@),
        }
    }
}

/// The view model: a terminal size, the entries, and the encoding.
pub struct UI<T: LogEntry> {
    rows: usize,
    cols: usize,
    model: Vec<T>,
    encoding: Encoding,
}

/// The background of the frame.
pub open spec fn backdrop() -> Colour {
    Colour::TrueColour { red: 0xcb, green: 0xc9, blue: 0xe2 }
}

/// The frame for the given state: the background of every row, the log of
/// all entries in order from the top left corner, and the status line.
pub open spec fn frame_text<T: LogEntry>(
    rows: usize,
    cols: usize,
    entries: Seq<T>,
    encoding: EncodingView,
) -> Seq<Seq<char>> {
    fill_text((1, 1), rows, cols, Some(backdrop())) + log_text(
        (1, 1),
        all_lines(entries, encoding),
    ) + status_text(rows, cols)
}

/// The sequences that open the display: switch to the alternate buffer,
/// clear it, hide the cursor.
pub open spec fn opening() -> Seq<Seq<char>> {
    seq!["\x1b[?1049h"@, "\x1b[2J"@, "\x1b[?25l"@]
}

/// The sequences that close the display: clear the buffer, leave the
/// alternate buffer, show the cursor.
pub open spec fn closing() -> Seq<Seq<char>> {
    seq!["\x1b[2J"@, "\x1b[?1049l"@, "\x1b[?25h"@]
}

impl<T: LogEntry> UI<T> {
    /// The number of rows of the terminal.
    pub closed spec fn rows(&self) -> usize {
        self.rows
    }

    /// The number of columns of the terminal.
    pub closed spec fn cols(&self) -> usize {
        self.cols
    }

    /// The entries, oldest first.
    pub closed spec fn entries(&self) -> Seq<T> {
        self.model@
    }

    /// The encoding in use.
    pub closed spec fn encoding(&self) -> EncodingView {
        self.encoding@
    }

    /// The frame that shows the current state.
    pub open spec fn frame(&self) -> Seq<Seq<char>> {
        frame_text(self.rows(), self.cols(), self.entries(), self.encoding())
    }

    /// A view of `model` on a terminal of the given size, in hex encoding.
    pub fn new(model: Vec<T>, rows: usize, cols: usize) -> (ui: Self)
        ensures
            ui.rows() == rows,
            ui.cols() == cols,
            ui.entries() == model@,
            ui.encoding() == EncodingView::Hex,
    {
        UI { rows, cols, model, encoding: Encoding::Hex }
    }

    /// The frame that shows the current state.
    pub fn render(&self) -> (out: Vec<String>)
        ensures
            string_views(out@) == self.frame(),
    {
        let mut out = fill(
            (1, 1),
            self.rows,
            self.cols,
            Some(Colour::TrueColour { red: 0xcb, green: 0xc9, blue: 0xe2 }),
        );
        let mut entries = log((1, 1), &self.model, &self.encoding);
        let mut status = status_line(self.rows, self.cols);
        out.append(&mut entries);
        out.append(&mut status);
        out
    }

    /// Appends an entry behind those that are there, and gives the new
    /// frame. Entries are never changed or taken away.
    pub fn add_data(&mut self, datum: T) -> (out: Vec<String>)
        ensures
            final(self).entries() == old(self).entries().push(datum),
            final(self).encoding() == old(self).encoding(),
            final(self).rows() == old(self).rows(),
            final(self).cols() == old(self).cols(),
            string_views(out@) == final(self).frame(),
    {
        self.model.push(datum);
        self.render()
    }

    /// Replaces the encoding, and gives the new frame.
    pub fn set_encoding(&mut self, encoding: Encoding) -> (out: Vec<String>)
        ensures
            final(self).encoding() == encoding@,
            final(self).entries() == old(self).entries(),
            final(self).rows() == old(self).rows(),
            final(self).cols() == old(self).cols(),
            string_views(out@) == final(self).frame(),
    {
        self.encoding = encoding;
        self.render()
    }

    /// What is written when the display opens: the opening sequences, then
    /// the first frame.
    pub fn start(&self) -> (out: Vec<String>)
        ensures
            string_views(out@) == opening() + self.frame(),
    {
        let mut out: Vec<String> = Vec::new();
        out.push(String::from_str("\x1b[?1049h"));
        out.push(String::from_str("\x1b[2J"));
        out.push(String::from_str("\x1b[?25l"));
        let mut frame = self.render();
        out.append(&mut frame);
        out
    }

    /// What is written when the display closes.
    pub fn stop(&self) -> (out: Vec<String>)
        ensures
            string_views(out@) == closing(),
    {
        let mut out: Vec<String> = Vec::new();
        out.push(String::from_str("\x1b[2J"));
        out.push(String::from_str("\x1b[?1049l"));
        out.push(String::from_str("\x1b[?25h"));
        out
    }
}

} // verus!
