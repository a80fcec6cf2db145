//! Requests, and the parser that reads one out of a frame.
//!
//! Parsing never fails. The frame is decoded as UTF-8, with every invalid
//! sequence replaced; the request line is the decoded text up to its first
//! CRLF; its first token is the method and its second the path. A part that
//! is missing gets its default: the empty method, the path `/`. The protocol
//! version, the third token, is not looked at.
//!
//! Header fields are not split into names and values. `header_end` marks
//! where the header block stops, so that it can be done later without another
//! read.

use vstd::prelude::*;
use vstd::slice::*;
use vstd::string::*;
use crate::frame::{body_of, find_blank_line, header_end_of, split_body, RawFrame};
use crate::text::{
    chars_of, find_crlf, first_crlf, lemma_first_crlf, lemma_token_at, next_token, token_at,
};

verus! {

/// The path of a request whose request line names none.
pub const DEFAULT_PATH: &'static str = "/";

/// A request read from one frame.
#[derive(Debug, PartialEq, Eq)]
pub struct Request {
    /// The method; empty when the request line holds no token.
    pub method: String,
    /// The path; `/` when the request line holds fewer than two tokens.
    pub path: String,
    /// The index in the frame at which the header block ends.
    pub header_end: usize,
    /// The bytes after the header block and its blank line.
    pub body: Vec<u8>,
}

/// A request as plain values.
pub struct RequestView {
    pub method: Seq<char>,
    pub path: Seq<char>,
    pub header_end: int,
    pub body: Seq<u8>,
}

impl View for Request {
    type V = RequestView;

    open spec fn view(&self) -> RequestView {
        RequestView {
            method: self.method@,
            path: self.path@,
            header_end: self.header_end as int,
            body: self.body@,
        }
    }
}

/// The text that lossy UTF-8 decoding makes of `bytes`.
pub uninterp spec fn utf8_lossy(bytes: Seq<u8>) -> Seq<char>;

/// Decodes `bytes` as UTF-8 with `String::from_utf8_lossy`, which puts
/// U+FFFD in place of every invalid sequence and so always gives a text.
/// The contract only names that text; nothing here says what it holds.
#[verifier::external_body]
fn decode_lossy(bytes: &[u8]) -> (text: String)
    ensures
        text@ == utf8_lossy(bytes@),
{
    String::from_utf8_lossy(bytes).into_owned()
}

/// The request line: the text up to its first CRLF, or all of it when it has
/// none.
pub open spec fn request_line(text: Seq<char>) -> Seq<char> {
    text.take(first_crlf(text, 0))
}

/// The method named by a request line: its first token, or the empty text.
pub open spec fn method_in(line: Seq<char>) -> Seq<char> {
    match token_at(line, 0) {
        Some((start, end)) => line.subrange(start, end),
        None => Seq::empty(),
    }
}

/// The path named by a request line: its second token, or `/`.
pub open spec fn path_in(line: Seq<char>) -> Seq<char> {
    match token_at(line, 0) {
        Some((_, end)) => match token_at(line, end) {
            Some((start, end)) => line.subrange(start, end),
            None => DEFAULT_PATH@,
        },
        None => DEFAULT_PATH@,
    }
}

/// The request that a frame with the bytes `bytes` holds, given the text
/// `text` that the bytes decode to.
pub open spec fn parsed(text: Seq<char>, bytes: Seq<u8>) -> RequestView {
    RequestView {
        method: method_in(request_line(text)),
        path: path_in(request_line(text)),
        header_end: header_end_of(bytes),
        body: body_of(bytes),
    }
}

/// The request that a frame holds.
pub open spec fn request_of(bytes: Seq<u8>) -> RequestView {
    parsed(utf8_lossy(bytes), bytes)
}

/// The request line has no token: the method is empty and the path is `/`.
pub open spec fn lacks_method(line: Seq<char>) -> bool {
    token_at(line, 0) is None
}

/// The request line has one token and no more: the path is `/`.
pub open spec fn lacks_path(line: Seq<char>) -> bool {
    token_at(line, 0) matches Some((_, end)) && token_at(line, end) is None
}

/// Reads the method and the path out of a request line.
pub fn parse_request_line(line: &str) -> (target: (String, String))
    ensures
        target.0@ == method_in(line@),
        target.1@ == path_in(line@),
{
    let chars = chars_of(line);
    proof {
        lemma_token_at(chars@, 0);
    }
    match next_token(chars.as_slice(), 0) {
        None => (String::new(), DEFAULT_PATH.to_owned()),
        Some((start, end)) => {
            let method = line.substring_char(start, end).to_owned();
            proof {
                lemma_token_at(chars@, end as int);
            }
            let path = match next_token(chars.as_slice(), end) {
                None => DEFAULT_PATH.to_owned(),
                Some((from, to)) => line.substring_char(from, to).to_owned(),
            };
            (method, path)
        },
    }
}

/// Reads the request out of the bytes of a frame and the text that they
/// decode to.
pub fn parse_text(text: &str, bytes: &[u8]) -> (req: Request)
    ensures
        req@ == parsed(text@, bytes@),
{
    let chars = chars_of(text);
    let line_end = find_crlf(chars.as_slice(), 0);
    proof {
        lemma_first_crlf(chars@, 0);
    }
    let line = text.substring_char(0, line_end);
    assert(line@ =~= request_line(text@));
    let (method, path) = parse_request_line(line);
    let header_end = find_blank_line(bytes);
    let body = slice_to_vec(split_body(bytes));
    Request { method, path, header_end, body }
}

/// Reads the request out of a frame.
pub fn parse(frame: &RawFrame) -> (req: Request)
    ensures
        req@ == request_of(frame@),
{
    let bytes = frame.as_bytes();
    let text = decode_lossy(bytes);
    parse_text(text.as_str(), bytes)
}

} // verus!
