//! HTTP/1.1 requests: the request line, the header fields and the body.

use crate::split::{
    find, first_match, join, lemma_join_push, lemma_split_nonempty, slice_views, split, split_slice,
};
use crate::text::{
    decimal, pair_views, push_decimal, string_from_chars, trim, trimmed, utf8_chars,
};
use vstd::prelude::*;
use vstd::slice::slice_subrange;
use vstd::utf8::{decode_utf8, valid_utf8};

verus! {

/// A decoded request. Header fields keep the order and the case in which
/// they came.
#[derive(Debug, PartialEq)]
pub struct HTTPRequest {
    pub method: String,
    pub target: String,
    pub version: String,
    pub headers: Vec<(String, String)>,
    pub body: Vec<u8>,
}

/// What an `HTTPRequest` holds, as a mathematical value.
pub struct HTTPRequestView {
    pub method: Seq<char>,
    pub target: Seq<char>,
    pub version: Seq<char>,
    pub headers: Seq<(Seq<char>, Seq<char>)>,
    pub body: Seq<u8>,
}

impl View for HTTPRequest {
    type V = HTTPRequestView;

    open spec fn view(&self) -> HTTPRequestView {
        HTTPRequestView {
            method: self.method@,
            target: self.target@,
            version: self.version@,
            headers: pair_views(self.headers@),
            body: self.body@,
        }
    }
}

/// The line feed that ends a line.
pub open spec fn line_feed() -> Seq<u8> {
    seq![10u8]
}

/// Method, target and version of a request line: the first three of the
/// tokens that single spaces separate, once the line is decoded as UTF-8 and
/// the white space around it is gone. `None` when the line is not UTF-8 or
/// has fewer than three tokens.
pub open spec fn request_line(line: Seq<u8>) -> Option<(Seq<char>, Seq<char>, Seq<char>)> {
    if !valid_utf8(line) {
        None
    } else {
        let tokens = split(trimmed(decode_utf8(line)), seq![' ']);
        if tokens.len() < 3 {
            None
        } else {
            Some((tokens[0], tokens[1], tokens[2]))
        }
    }
}

/// Name and value of a header line: what stands before and behind its first
/// colon, each decoded as UTF-8 and without the white space around it. `None`
/// when the line has no colon or one of the two is not UTF-8.
pub open spec fn header_line(line: Seq<u8>) -> Option<(Seq<char>, Seq<char>)> {
    let colon = first_match(line, seq![58u8]);
    if 0 <= colon < line.len() {
        let name = line.take(colon);
        let value = line.skip(colon + 1);
        if valid_utf8(name) && valid_utf8(value) {
            Some((trimmed(decode_utf8(name)), trimmed(decode_utf8(value))))
        } else {
            None
        }
    } else {
        None
    }
}

/// Whether a line ends the header section: an empty line, or one that is a
/// single carriage return.
pub open spec fn ends_headers(line: Seq<u8>) -> bool {
    line.len() == 0 || line == seq![13u8]
}

/// The number of lines at the start of `lines` that come before the line
/// that ends the header section, or before the end.
pub open spec fn header_count(lines: Seq<Seq<u8>>) -> nat
    decreases lines.len(),
{
    if lines.len() == 0 || ends_headers(lines[0]) {
        0
    } else {
        1 + header_count(lines.skip(1))
    }
}

/// The header fields of the lines counted by `header_count`, in order.
/// `None` when one of these lines is no header line.
pub open spec fn decode_headers(lines: Seq<Seq<u8>>) -> Option<Seq<(Seq<char>, Seq<char>)>>
    decreases lines.len(),
{
    if lines.len() == 0 || ends_headers(lines[0]) {
        Some(Seq::empty())
    } else {
        match header_line(lines[0]) {
            None => None,
            Some(field) => match decode_headers(lines.skip(1)) {
                None => None,
                Some(rest) => Some(seq![field] + rest),
            },
        }
    }
}

/// The lines from index `from` on, joined by line feeds; nothing when there
/// are not that many lines.
pub open spec fn lines_from(lines: Seq<Seq<u8>>, from: int) -> Seq<u8> {
    if 0 <= from <= lines.len() {
        join(lines.skip(from), line_feed())
    } else {
        Seq::empty()
    }
}

/// The request that `data` holds. The input is cut into lines at its line
/// feeds. The first line is the request line; header lines follow up to the
/// line that ends the header section; the lines behind that one, with their
/// line feeds, are the body.
pub open spec fn decode_request(data: Seq<u8>) -> Option<HTTPRequestView> {
    let lines = split(data, line_feed());
    match request_line(lines[0]) {
        None => None,
        Some((method, target, version)) => match decode_headers(lines.skip(1)) {
            None => None,
            Some(headers) => Some(
                HTTPRequestView {
                    method,
                    target,
                    version,
                    headers,
                    body: lines_from(lines, header_count(lines.skip(1)) as int + 2),
                },
            ),
        },
    }
}

/// The properties of a request for display: method, target and version, the
/// header fields in order, and the length of the body.
pub open spec fn request_properties(request: HTTPRequestView) -> Seq<(Seq<char>, Seq<char>)> {
    seq![
        ("method"@, request.method),
        ("target"@, request.target),
        ("version"@, request.version),
    ] + request.headers + seq![
        ("message body length"@, decimal(request.body.len()) + " bytes"@),
    ]
}

/// The lines from index `from` on, joined by line feeds.
fn join_lines(lines: &Vec<&[u8]>, from: usize) -> (body: Vec<u8>)
    ensures
        body@ == lines_from(slice_views(lines@), from as int),
{
    let mut body: Vec<u8> = Vec::new();
    if from > lines.len() {
        return body;
    }
    let ghost views = slice_views(lines@);
    let mut k: usize = from;
    while k < lines.len()
        invariant
            from <= k <= lines.len(),
            views == slice_views(lines@),
            body@ == join(views.subrange(from as int, k as int), line_feed()),
        decreases lines.len() - k,
    {
        let ghost done = views.subrange(from as int, k as int);
        if k > from {
            body.push(10u8);
        }
        let line = lines[k];
        let ghost start = body@;
        let mut j: usize = 0;
        while j < line.len()
            invariant
                j <= line.len(),
                body@ == start + line@.take(j as int),
            decreases line.len() - j,
        {
            body.push(line[j]);
            j += 1;
        }
        proof {
            lemma_join_push(done, line_feed(), line@);
            assert(done.push(line@) =~= views.subrange(from as int, k + 1));
        }
        k += 1;
    }
    body
}

/// The string that a byte string encodes, without surrounding white space.
fn trimmed_string(bytes: &[u8]) -> (r: Option<String>)
    ensures
        r is Some <==> valid_utf8(bytes@),
        r is Some ==> r->0@ == trimmed(decode_utf8(bytes@)),
{
    match utf8_chars(bytes) {
        Some(chars) => Some(string_from_chars(trim(chars.as_slice()))),
        None => None,
    }
}

/// Decodes a header line.
fn parse_header(line: &[u8]) -> (r: Option<(String, String)>)
    ensures
        match r {
            Some(field) => header_line(line@) == Some((field.0@, field.1@)),
            None => header_line(line@) is None,
        },
{
    let colon_pattern: [u8; 1] = [58u8];
    assert(colon_pattern@ =~= seq![58u8]);
    let colon = find(line, colon_pattern.as_slice())?;
    assert(colon < line.len());
    let name = trimmed_string(slice_subrange(line, 0, colon))?;
    let value = trimmed_string(slice_subrange(line, colon + 1, line.len()))?;
    Some((name, value))
}

/// Whether a line ends the header section.
fn is_blank(line: &[u8]) -> (r: bool)
    ensures
        r == ends_headers(line@),
{
    if line.len() == 0 {
        true
    } else if line.len() == 1 && line[0] == 13u8 {
        assert(line@ =~= seq![13u8]);
        true
    } else {
        assert(seq![13u8].len() == 1 && seq![13u8][0] == 13u8);
        false
    }
}

impl HTTPRequest {
    /// Whether `r` is what decoding `data` gives: the request that
    /// `decode_request` describes, or nothing where it describes none.
    pub open spec fn decoded_from(r: Option<Self>, data: Seq<u8>) -> bool {
        match r {
            Some(request) => decode_request(data) == Some(request@),
            None => decode_request(data) is None,
        }
    }

    /// Decodes a request from captured bytes.
    pub fn new(data: &[u8]) -> (r: Option<Self>)
        ensures
            Self::decoded_from(r, data@),
    {
        let feed: [u8; 1] = [10u8];
        let space: [char; 1] = [' '];
        assert(feed@ =~= line_feed());
        assert(space@ =~= seq![' ']);
        let lines = split_slice(data, feed.as_slice());
        let ghost views = slice_views(lines@);
        proof {
            lemma_split_nonempty(data@, line_feed());
        }
        let chars = utf8_chars(lines[0])?;
        let tokens = split_slice(trim(chars.as_slice()), space.as_slice());
        if tokens.len() < 3 {
            return None;
        }
        let method = string_from_chars(tokens[0]);
        let target = string_from_chars(tokens[1]);
        let version = string_from_chars(tokens[2]);

        let mut headers: Vec<(String, String)> = Vec::new();
        let mut i: usize = 1;
        while i < lines.len() && !is_blank(lines[i])
            invariant
                1 <= i <= lines.len(),
                views == slice_views(lines@),
                views == split(data@, line_feed()),
                header_count(views.skip(1)) == (i - 1) + header_count(views.skip(i as int)),
                decode_headers(views.skip(1)) == match decode_headers(views.skip(i as int)) {
                    None => None::<Seq<(Seq<char>, Seq<char>)>>,
                    Some(rest) => Some(pair_views(headers@) + rest),
                },
            decreases lines.len() - i,
        {
            proof {
                assert(views.skip(i as int).skip(1) =~= views.skip(i + 1));
            }
            let field = parse_header(lines[i])?;
            headers.push(field);
            i += 1;
        }
        let body = if i < lines.len() {
            join_lines(&lines, i + 1)
        } else {
            Vec::new()
        };
        Some(HTTPRequest { method, target, version, headers, body })
    }

    /// The properties of the request for display.
    pub fn properties(&self) -> (properties: Vec<(String, String)>)
        ensures
            pair_views(properties@) == request_properties(self@),
    {
        let mut properties: Vec<(String, String)> = Vec::new();
        properties.push((String::from_str("method"), self.method.clone()));
        properties.push((String::from_str("target"), self.target.clone()));
        properties.push((String::from_str("version"), self.version.clone()));
        let ghost head = pair_views(properties@);
        assert(head =~= seq![
            ("method"@, self.method@),
            ("target"@, self.target@),
            ("version"@, self.version@),
        ]);
        let mut i: usize = 0;
        while i < self.headers.len()
            invariant
                i <= self.headers.len(),
                pair_views(properties@) == head + pair_views(self.headers@).take(i as int),
            decreases self.headers.len() - i,
        {
            let ghost before = pair_views(properties@);
            let name = self.headers[i].0.clone();
            let value = self.headers[i].1.clone();
            properties.push((name, value));
            proof {
                assert(pair_views(properties@) =~= before.push((name@, value@)));
            }
            i += 1;
        }
        let mut body_length = String::new();
        push_decimal(&mut body_length, self.body.len() as u128);
        body_length.append(" bytes");
        properties.push((String::from_str("message body length"), body_length));
        proof {
            assert(pair_views(self.headers@).take(i as int) =~= pair_views(self.headers@));
        }
        properties
    }
}

/// Decoding has no hidden state: whatever two runs on the same bytes give,
/// they agree on whether there is a request and on everything it holds.
pub proof fn lemma_request_repeatable(
    data: Seq<u8>,
    first: Option<HTTPRequest>,
    second: Option<HTTPRequest>,
)
    requires
        HTTPRequest::decoded_from(first, data),
        HTTPRequest::decoded_from(second, data),
    ensures
        first is Some <==> second is Some,
        first is Some ==> first->0@ == second->0@,
{
}

} // verus!
