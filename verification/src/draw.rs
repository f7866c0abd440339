//! What is painted on the terminal, as text: styles, and the positioned
//! lines of a frame. Nothing here writes to the terminal; each function
//! returns the strings to write, in order.

use crate::text::{decimal, push_decimal, spaces, spaces_string, string_views};
use crate::ui::{Encoding, EncodingView};
use vstd::prelude::*;

verus! {

/// An entry of the log: something with a time stamp that can be laid out as
/// display lines under a given encoding.
pub trait LogEntry {
    /// The time stamp as it is displayed.
    spec fn timestamp_text(&self) -> Seq<char>;

    /// The display lines of the entry.
    spec fn lines(&self, encoding: EncodingView) -> Seq<Seq<char>>;

    /// The time stamp as a string.
    fn timestamp(&self) -> (text: String)
        ensures
            text@ == self.timestamp_text(),
    ;

    /// The display lines as strings.
    fn to_lines(&self, encoding: &Encoding) -> (lines: Vec<String>)
        ensures
            string_views(lines@) == self.lines(encoding@),
    ;
}

/// A colour of the terminal.
#[derive(Debug, PartialEq, Eq, Clone, Copy)]
pub enum Colour {
    TrueColour { red: u32, green: u32, blue: u32 },
}

/// The colours of text and of what lies behind it; either may be left as the
/// terminal has it.
#[derive(Debug, PartialEq, Eq, Clone, Copy)]
pub struct Style {
    pub foreground: Option<Colour>,
    pub background: Option<Colour>,
}

/// The three parts of a colour as they stand in a style: decimal numbers
/// with semicolons between them.
pub open spec fn colour_parts(colour: Colour) -> Seq<char> {
    match colour {
        Colour::TrueColour { red, green, blue } => decimal(red as nat) + ";"@ + decimal(
            green as nat,
        ) + ";"@ + decimal(blue as nat),
    }
}

/// The parameters that select a style: `38;2;` and the foreground colour,
/// `48;2;` and the background colour, with a semicolon between the two where
/// both are there.
pub open spec fn style_code(style: Style) -> Seq<char> {
    let front = match style.foreground {
        Some(colour) => "38;2;"@ + colour_parts(colour),
        None => Seq::empty(),
    };
    match style.background {
        Some(colour) => front + (if front.len() > 0 {
            ";"@
        } else {
            Seq::empty()
        }) + "48;2;"@ + colour_parts(colour),
        None => front,
    }
}

/// `text` between the sequence that selects `code` and the one that resets
/// the style; `text` alone where `code` is empty.
pub open spec fn styled(code: Seq<char>, text: Seq<char>) -> Seq<char> {
    if code.len() > 0 {
        "\x1b["@ + code + "m"@ + text + "\x1b[0m"@
    } else {
        text
    }
}

/// The sequence that moves the cursor to a row and a column.
pub open spec fn move_to(row: nat, col: nat) -> Seq<char> {
    "\x1b["@ + decimal(row) + ";"@ + decimal(col) + "H"@
}

/// A line of the log at its place: bold, in the colours of the log.
pub open spec fn log_line(row: nat, col: nat, text: Seq<char>) -> Seq<char> {
    move_to(row, col) + "\x1b[1m\x1b[38;2;84;39;143;48;2;203;201;226m"@ + text + "\x1b[0m"@
}

/// The display lines of all entries, one entry after the other.
pub open spec fn all_lines<T: LogEntry>(entries: Seq<T>, encoding: EncodingView) -> Seq<Seq<char>>
    decreases entries.len(),
{
    if entries.len() == 0 {
        Seq::empty()
    } else {
        all_lines(entries.drop_last(), encoding) + entries.last().lines(encoding)
    }
}

/// Appends the parts of a colour.
fn push_colour(out: &mut String, colour: Colour)
    ensures
        final(out)@ == old(out)@ + colour_parts(colour),
{
    match colour {
        Colour::TrueColour { red, green, blue } => {
            push_decimal(out, red as u128);
            out.append(";");
            push_decimal(out, green as u128);
            out.append(";");
            push_decimal(out, blue as u128);
        },
    }
}

/// Appends the sequence that moves the cursor to `row`, `col`.
fn push_move(out: &mut String, row: u128, col: u128)
    ensures
        final(out)@ == old(out)@ + move_to(row as nat, col as nat),
{
    out.append("\x1b[");
    push_decimal(out, row);
    out.append(";");
    push_decimal(out, col);
    out.append("H");
}

impl Style {
    /// A style with the given colours.
    pub fn new(foreground: Option<Colour>, background: Option<Colour>) -> (style: Self)
        ensures
            style.foreground == foreground,
            style.background == background,
    {
        Style { foreground, background }
    }

    /// The parameters that select the style.
    pub fn get_style(self) -> (code: String)
        ensures
            code@ == style_code(self),
    {
        let mut style = String::new();
        if let Some(colour) = self.foreground {
            style.append("38;2;");
            push_colour(&mut style, colour);
        }
        if let Some(colour) = self.background {
            if !style.as_str().is_empty() {
                style.push(';');
                proof {
                    reveal_strlit(";");
                }
            }
            style.append("48;2;");
            push_colour(&mut style, colour);
        }
        style
    }

    /// `s` in this style.
    pub fn style_string(self, s: &str) -> (text: String)
        ensures
            text@ == styled(style_code(self), s@),
    {
        let style = self.get_style();
        if !style.as_str().is_empty() {
            let mut text = String::from_str("\x1b[");
            text.append(style.as_str());
            text.append("m");
            text.append(s);
            text.append("\x1b[0m");
            text
        } else {
            String::from_str(s)
        }
    }
}

/// What `line_numbers` returns.
pub open spec fn line_numbers_text(origin: (usize, usize), rows: usize) -> Seq<Seq<char>> {
    Seq::new(
        rows_below(origin.0 as nat, rows as nat),
        |i: int| move_to((origin.0 + i) as nat, 1) + decimal((origin.0 + i) as nat),
    )
}

/// What `fill` returns.
pub open spec fn fill_text(
    origin: (usize, usize),
    rows: usize,
    cols: usize,
    background: Option<Colour>,
) -> Seq<Seq<char>> {
    Seq::new(
        rows as nat,
        |i: int|
            move_to((origin.0 + i) as nat, origin.1 as nat) + styled(
                style_code(Style { foreground: None, background }),
                spaces(cols as nat),
            ),
    )
}

/// What `list` and `log` return for the given lines of text.
pub open spec fn log_text(origin: (usize, usize), lines: Seq<Seq<char>>) -> Seq<Seq<char>> {
    Seq::new(
        lines.len(),
        |k: int| log_line((origin.0 + k) as nat, origin.1 as nat, lines[k]),
    )
}

/// What `status_line` returns.
pub open spec fn status_text(rows: usize, cols: usize) -> Seq<Seq<char>> {
    seq![
        move_to(rows as nat, 1) + "\x1b[47m"@ + spaces(cols as nat) + "\x1b[0m"@,
        move_to(rows as nat, 1) + "\x1b[30;47m"@ + decimal(rows as nat) + " x "@ + decimal(
            cols as nat,
        ) + "\x1b[0m"@,
    ]
}

/// The number of rows from `first` up to, but not including, `rows`.
pub open spec fn rows_below(first: nat, rows: nat) -> nat {
    if rows >= first {
        (rows - first) as nat
    } else {
        0
    }
}

/// The row numbers in the first column, from the row of `origin` up to, but
/// not including, row `rows`.
pub fn line_numbers(origin: (usize, usize), rows: usize) -> (out: Vec<String>)
    ensures
        string_views(out@) == line_numbers_text(origin, rows),
{
    let mut out: Vec<String> = Vec::new();
    if rows < origin.0 {
        return out;
    }
    let count: usize = rows - origin.0;
    let mut i: usize = 0;
    while i < count
        invariant
            i <= count,
            out@.len() == i,
            forall|k: int|
                0 <= k < i ==> out@[k]@ == move_to((origin.0 + k) as nat, 1) + decimal(
                    (origin.0 + k) as nat,
                ),
        decreases count - i,
    {
        let row: u128 = origin.0 as u128 + i as u128;
        let mut text = String::new();
        push_move(&mut text, row, 1);
        push_decimal(&mut text, row);
        out.push(text);
        i += 1;
    }
    out
}

/// `rows` rows of `cols` spaces on the given background, from `origin` down.
pub fn fill(origin: (usize, usize), rows: usize, cols: usize, background: Option<Colour>) -> (out:
    Vec<String>)
    ensures
        string_views(out@) == fill_text(origin, rows, cols, background),
{
    let style = Style::new(None, background);
    let row_text = style.style_string(spaces_string(cols).as_str());
    let mut out: Vec<String> = Vec::new();
    let mut i: usize = 0;
    while i < rows
        invariant
            i <= rows,
            out@.len() == i,
            row_text@ == styled(style_code(style), spaces(cols as nat)),
            forall|k: int|
                0 <= k < i ==> out@[k]@ == move_to((origin.0 + k) as nat, origin.1 as nat)
                    + row_text@,
        decreases rows - i,
    {
        let mut text = String::new();
        push_move(&mut text, origin.0 as u128 + i as u128, origin.1 as u128);
        text.append(row_text.as_str());
        out.push(text);
        i += 1;
    }
    out
}

/// Appends one log line for each of `lines` to `out`, the first at row
/// `row`, the others below it.
fn push_log_lines(out: &mut Vec<String>, row: u128, col: usize, lines: &Vec<String>)
    requires
        row + lines@.len() <= u128::MAX,
    ensures
        string_views(final(out)@) == string_views(old(out)@) + Seq::new(
            lines@.len(),
            |j: int| log_line((row + j) as nat, col as nat, lines@[j]@),
        ),
{
    let ghost wanted = Seq::new(
        lines@.len(),
        |j: int| log_line((row + j) as nat, col as nat, lines@[j]@),
    );
    let mut j: usize = 0;
    while j < lines.len()
        invariant
            j <= lines.len(),
            row + lines@.len() <= u128::MAX,
            wanted == Seq::new(
                lines@.len(),
                |j: int| log_line((row + j) as nat, col as nat, lines@[j]@),
            ),
            string_views(out@) == string_views(old(out)@) + wanted.take(j as int),
        decreases lines.len() - j,
    {
        let ghost before = string_views(out@);
        let mut text = String::new();
        push_move(&mut text, row + j as u128, col as u128);
        text.append("\x1b[1m\x1b[38;2;84;39;143;48;2;203;201;226m");
        text.append(lines[j].as_str());
        text.append("\x1b[0m");
        out.push(text);
        proof {
            assert(string_views(out@) =~= before.push(wanted[j as int]));
        }
        j += 1;
    }
}

/// The given texts as a list: one to the row, from `origin` down, in the
/// colours of the log.
pub fn list(origin: (usize, usize), data: &Vec<String>) -> (out: Vec<String>)
    ensures
        string_views(out@) == log_text(origin, string_views(data@)),
{
    let mut out: Vec<String> = Vec::new();
    assert(data.len() <= usize::MAX);
    push_log_lines(&mut out, origin.0 as u128, origin.1, data);
    out
}

/// The log: the display lines of all entries under `encoding`, one to the
/// row, from `origin` down.
pub fn log<T: LogEntry>(origin: (usize, usize), entries: &Vec<T>, encoding: &Encoding) -> (out:
    Vec<String>)
    ensures
        string_views(out@) == log_text(origin, all_lines(entries@, encoding@)),
{
    let mut out: Vec<String> = Vec::new();
    let mut i: usize = 0;
    while i < entries.len()
        invariant
            i <= entries.len(),
            string_views(out@) == log_text(
                origin,
                all_lines(entries@.take(i as int), encoding@),
            ),
        decreases entries.len() - i,
    {
        let lines = entries[i].to_lines(encoding);
        proof {
            assert(entries@.take(i + 1).drop_last() =~= entries@.take(i as int));
        }
        assert(lines.len() <= usize::MAX);
        let row: u128 = origin.0 as u128 + out.len() as u128;
        push_log_lines(&mut out, row, origin.1, &lines);
        i += 1;
    }
    proof {
        assert(entries@.take(i as int) =~= entries@);
    }
    out
}

/// The status line in row `rows`: the row blanked in white, then the size of
/// the terminal in black on white.
pub fn status_line(rows: usize, cols: usize) -> (out: Vec<String>)
    ensures
        string_views(out@) == status_text(rows, cols),
{
    let mut out: Vec<String> = Vec::new();
    let mut first = String::new();
    push_move(&mut first, rows as u128, 1);
    first.append("\x1b[47m");
    first.append(spaces_string(cols).as_str());
    first.append("\x1b[0m");
    let mut second = String::new();
    push_move(&mut second, rows as u128, 1);
    second.append("\x1b[30;47m");
    push_decimal(&mut second, rows as u128);
    second.append(" x ");
    push_decimal(&mut second, cols as u128);
    second.append("\x1b[0m");
    out.push(first);
    out.push(second);
    out
}

} // verus!
