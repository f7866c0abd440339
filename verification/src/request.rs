//! A capture record, and its rendering as display lines.

use crate::draw::LogEntry;
use crate::http_request::{decode_request, request_properties, HTTPRequest};
use crate::split::{join, lemma_join_push, slice_views, split, split_slice};
use crate::text::{
    decimal, decimal_string, hex_byte, pair_views, push_decimal, push_hex_byte, spaces,
    spaces_string, string_from_chars, string_views, utf8_chars,
};
use crate::ui::{Encoding, EncodingView};
use vstd::prelude::*;
use vstd::slice::slice_subrange;
use vstd::utf8::{decode_utf8, valid_utf8};

verus! {

/// The bytes of one captured message, with the time of its capture in
/// milliseconds since the epoch.
pub struct Request {
    timestamp: u128,
    data: Vec<u8>,
}

/// What a `Request` holds, as a mathematical value.
pub struct RequestView {
    pub timestamp: u128,
    pub data: Seq<u8>,
}

impl View for Request {
    type V = RequestView;

    closed spec fn view(&self) -> RequestView {
        RequestView { timestamp: self.timestamp, data: self.data@ }
    }
}

/// A byte as it stands in a hex dump: two digits and a space.
pub open spec fn hex_cell(b: u8) -> Seq<char> {
    hex_byte(b).push(' ')
}

/// The cells of a run of bytes.
pub open spec fn hex_cells(bytes: Seq<u8>) -> Seq<Seq<char>> {
    Seq::new(bytes.len(), |k: int| hex_cell(bytes[k]))
}

/// One line of a hex dump: the cells of its bytes, with a space between
/// neighbours.
pub open spec fn hex_row(bytes: Seq<u8>) -> Seq<char> {
    join(hex_cells(bytes), seq![' '])
}

/// The number of lines of a hex dump of `len` bytes, 16 bytes to the line.
pub open spec fn hex_line_count(len: nat) -> nat {
    (len + 15) / 16
}

/// The hex dump of `data`: 16 bytes to the line, the last line with what is
/// left.
pub open spec fn hex_lines(data: Seq<u8>) -> Seq<Seq<char>> {
    Seq::new(
        hex_line_count(data.len()),
        |i: int|
            hex_row(
                data.subrange(
                    16 * i,
                    if 16 * i + 16 <= data.len() {
                        16 * i + 16
                    } else {
                        data.len() as int
                    },
                ),
            ),
    )
}

/// The pair of characters that ends a line of text.
pub open spec fn line_break() -> Seq<char> {
    seq!['\r', '\n']
}

/// `data` as lines of text, where it is UTF-8; its hex dump where it is not.
pub open spec fn text_lines(data: Seq<u8>) -> Seq<Seq<char>> {
    if valid_utf8(data) {
        split(decode_utf8(data), line_break())
    } else {
        hex_lines(data)
    }
}

/// One line for each property: its name, a colon and a space, its value.
pub open spec fn property_lines(properties: Seq<(Seq<char>, Seq<char>)>) -> Seq<Seq<char>> {
    Seq::new(properties.len(), |i: int| properties[i].0 + ": "@ + properties[i].1)
}

/// `data` decoded by the protocol of the given name. `"http"` is the one
/// protocol known.
pub open spec fn protocol_lines(protocol: Seq<char>, data: Seq<u8>) -> Seq<Seq<char>> {
    if protocol == "http"@ {
        match decode_request(data) {
            Some(request) => property_lines(request_properties(request)),
            None => seq!["ERROR: Parsing failed."@],
        }
    } else {
        seq!["ERROR: Unknown protocol "@ + protocol]
    }
}

/// The content lines of a record under an encoding, before the time stamp
/// column is put in front.
pub open spec fn content_lines(data: Seq<u8>, encoding: EncodingView) -> Seq<Seq<char>> {
    match encoding {
        EncodingView::Hex => hex_lines(data),
        EncodingView::Text => text_lines(data),
        EncodingView::Protocol(name) => protocol_lines(name, data),
    }
}

/// The content lines behind a time stamp column: the first line starts with
/// the time stamp in decimal, every other line with as many spaces, and
/// `" | "` separates the column from the content.
pub open spec fn with_timestamp(timestamp: u128, content: Seq<Seq<char>>) -> Seq<Seq<char>> {
    Seq::new(
        content.len(),
        |i: int|
            (if i == 0 {
                decimal(timestamp as nat)
            } else {
                spaces(decimal(timestamp as nat).len())
            }) + " | "@ + content[i],
    )
}

/// The display lines of a record under an encoding.
pub open spec fn display_lines(record: RequestView, encoding: EncodingView) -> Seq<Seq<char>> {
    with_timestamp(record.timestamp, content_lines(record.data, encoding))
}

/// The one-line summary of a record: the number of its bytes and the cells
/// of the first 32 of them, or `<null>` where it has none.
pub open spec fn summary_text(data: Seq<u8>) -> Seq<char> {
    decimal(data.len()) + " bytes "@ + if data.len() == 0 {
        "<null>"@
    } else {
        join(
            hex_cells(
                data.take(
                    if data.len() < 32 {
                        data.len() as int
                    } else {
                        32
                    },
                ),
            ),
            Seq::empty(),
        )
    }
}

/// Appends the cells of `bytes` to `out`, with `sep` between neighbours.
fn push_cells(out: &mut String, bytes: &[u8], sep: &str)
    ensures
        final(out)@ == old(out)@ + join(hex_cells(bytes@), sep@),
{
    let ghost cells = hex_cells(bytes@);
    let mut k: usize = 0;
    while k < bytes.len()
        invariant
            k <= bytes.len(),
            cells == hex_cells(bytes@),
            out@ == old(out)@ + join(cells.take(k as int), sep@),
        decreases bytes.len() - k,
    {
        let ghost done = cells.take(k as int);
        if k > 0 {
            out.append(sep);
        }
        push_hex_byte(out, bytes[k]);
        out.push(' ');
        proof {
            lemma_join_push(done, sep@, cells[k as int]);
            assert(done.push(cells[k as int]) =~= cells.take(k + 1));
        }
        k += 1;
    }
    proof {
        assert(cells.take(k as int) =~= cells);
    }
}

/// The hex dump of `data`.
fn hex_dump(data: &[u8]) -> (lines: Vec<String>)
    ensures
        string_views(lines@) == hex_lines(data@),
{
    let mut lines: Vec<String> = Vec::new();
    let count: usize = if data.len() % 16 == 0 {
        data.len() / 16
    } else {
        data.len() / 16 + 1
    };
    let mut i: usize = 0;
    while i < count
        invariant
            i <= count,
            count == hex_line_count(data@.len()),
            data.len() == data@.len(),
            lines@.len() == i,
            forall|k: int| 0 <= k < i ==> lines@[k]@ == hex_lines(data@)[k],
        decreases count - i,
    {
        let start: usize = 16 * i;
        let end: usize = if data.len() - start >= 16 {
            start + 16
        } else {
            data.len()
        };
        let mut row = String::new();
        push_cells(&mut row, slice_subrange(data, start, end), " ");
        proof {
            reveal_strlit(" ");
            assert(" "@ =~= seq![' ']);
        }
        lines.push(row);
        i += 1;
    }
    lines
}

/// The strings with the given characters.
fn strings_from(parts: &Vec<&[char]>) -> (strings: Vec<String>)
    ensures
        string_views(strings@) == slice_views(parts@),
{
    let mut strings: Vec<String> = Vec::new();
    let mut i: usize = 0;
    while i < parts.len()
        invariant
            i <= parts.len(),
            strings@.len() == i,
            forall|k: int| 0 <= k < i ==> strings@[k]@ == parts@[k]@,
        decreases parts.len() - i,
    {
        strings.push(string_from_chars(parts[i]));
        i += 1;
    }
    strings
}

/// `data` as lines of text, or as a hex dump.
fn text_dump(data: &[u8]) -> (lines: Vec<String>)
    ensures
        string_views(lines@) == text_lines(data@),
{
    match utf8_chars(data) {
        Some(chars) => {
            let pattern: [char; 2] = ['\r', '\n'];
            let parts = split_slice(chars.as_slice(), pattern.as_slice());
            strings_from(&parts)
        },
        None => hex_dump(data),
    }
}

impl Request {
    /// A record of `data`, captured at `timestamp`.
    pub fn new(timestamp: u128, data: Vec<u8>) -> (record: Self)
        ensures
            record@ == (RequestView { timestamp, data: data@ }),
    {
        Request { timestamp, data }
    }

    /// The content lines of the record as the named protocol decodes it.
    /// A name other than `"http"` gives the one line that says so.
    pub fn parse_protocol(&self, protocol: &str) -> (lines: Vec<String>)
        ensures
            string_views(lines@) == protocol_lines(protocol@, self@.data),
            protocol@ != "http"@ ==> string_views(lines@) == seq![
                "ERROR: Unknown protocol "@ + protocol@,
            ],
    {
        let mut lines: Vec<String> = Vec::new();
        if String::from_str(protocol) == String::from_str("http") {
            match HTTPRequest::new(self.data.as_slice()) {
                Some(http) => {
                    let properties = http.properties();
                    let ghost wanted = property_lines(pair_views(properties@));
                    let mut i: usize = 0;
                    while i < properties.len()
                        invariant
                            i <= properties.len(),
                            wanted == property_lines(pair_views(properties@)),
                            lines@.len() == i,
                            forall|k: int| 0 <= k < i ==> lines@[k]@ == wanted[k],
                        decreases properties.len() - i,
                    {
                        let mut line = properties[i].0.clone();
                        line.append(": ");
                        line.append(properties[i].1.as_str());
                        lines.push(line);
                        i += 1;
                    }
                },
                None => {
                    lines.push(String::from_str("ERROR: Parsing failed."));
                },
            }
        } else {
            let mut line = String::from_str("ERROR: Unknown protocol ");
            line.append(protocol);
            lines.push(line);
        }
        lines
    }

    /// A one-line summary of the record.
    pub fn summary(&self) -> (text: String)
        ensures
            text@ == summary_text(self@.data),
    {
        let mut text = String::new();
        push_decimal(&mut text, self.data.len() as u128);
        text.append(" bytes ");
        if self.data.len() == 0 {
            text.append("<null>");
        } else {
            let shown: usize = if self.data.len() < 32 {
                self.data.len()
            } else {
                32
            };
            push_cells(&mut text, slice_subrange(self.data.as_slice(), 0, shown), "");
            proof {
                reveal_strlit("");
                assert(""@ =~= Seq::<char>::empty());
            }
        }
        text
    }
}

impl LogEntry for Request {
    open spec fn timestamp_text(&self) -> Seq<char> {
        decimal(self@.timestamp as nat)
    }

    open spec fn lines(&self, encoding: EncodingView) -> Seq<Seq<char>> {
        display_lines(self@, encoding)
    }

    /// The time stamp in decimal.
    fn timestamp(&self) -> (text: String) {
        decimal_string(self.timestamp)
    }

    /// The display lines of the record under `encoding`: `display_lines`, as
    /// the trait asks. A hex dump has 16 bytes to the line.
    fn to_lines(&self, encoding: &Encoding) -> (lines: Vec<String>)
        ensures
            encoding@ is Hex ==> lines@.len() == hex_line_count(self@.data.len()),
    {
        let content: Vec<String> = match encoding {
            Encoding::Protocol(protocol) => self.parse_protocol(protocol.as_str()),
            Encoding::Text => text_dump(self.data.as_slice()),
            Encoding::Hex => hex_dump(self.data.as_slice()),
        };
        let timestamp = self.timestamp();
        let width = timestamp.as_str().unicode_len();
        let spacer = spaces_string(width);
        let ghost wanted = display_lines(self@, encoding@);
        let mut lines: Vec<String> = Vec::new();
        let mut i: usize = 0;
        while i < content.len()
            invariant
                i <= content.len(),
                wanted == with_timestamp(self@.timestamp, string_views(content@)),
                timestamp@ == decimal(self@.timestamp as nat),
                spacer@ == spaces(timestamp@.len()),
                lines@.len() == i,
                forall|k: int| 0 <= k < i ==> lines@[k]@ == wanted[k],
            decreases content.len() - i,
        {
            let mut line = if i == 0 {
                timestamp.clone()
            } else {
                spacer.clone()
            };
            line.append(" | ");
            line.append(content[i].as_str());
            lines.push(line);
            i += 1;
        }
        lines
    }
}

} // verus!
