//! Responses: a status line, the fixed set of header fields, and a body.

use vstd::prelude::*;
use vstd::string::*;

verus! {

/// Name of the header field that carries the length of the body.
pub const CONTENT_LENGTH: &'static str = "Content-Length";

/// One header field.
#[derive(Debug, PartialEq, Eq)]
pub struct Header {
    pub name: String,
    pub value: String,
}

/// A header field as a pair of texts.
pub struct HeaderView {
    pub name: Seq<char>,
    pub value: Seq<char>,
}

impl View for Header {
    type V = HeaderView;

    open spec fn view(&self) -> HeaderView {
        HeaderView { name: self.name@, value: self.value@ }
    }
}

/// The views of a sequence of header fields, in order.
pub open spec fn header_views(headers: Seq<Header>) -> Seq<HeaderView> {
    headers.map_values(|h: Header| h@)
}

/// The decimal digit for `d`.
pub open spec fn digit(d: nat) -> char
    recommends
        d < 10,
{
    (48 + d) as char
}

/// The decimal numeral of `n`, without sign or leading zeros.
pub open spec fn decimal(n: nat) -> Seq<char>
    decreases n,
{
    if n < 10 {
        seq![digit(n)]
    } else {
        decimal(n / 10).push(digit(n % 10))
    }
}

/// The number that a decimal numeral stands for.
pub open spec fn decimal_value(s: Seq<char>) -> nat
    decreases s.len(),
{
    if s.len() == 0 {
        0
    } else {
        (10 * decimal_value(s.drop_last()) + (s.last() as nat - 48)) as nat
    }
}

/// Reading a numeral gives back the number it was written for, so two
/// numbers with the same numeral are the same number.
pub proof fn lemma_decimal_value(n: nat)
    ensures
        decimal_value(decimal(n)) == n,
        decimal(n).len() >= 1,
    decreases n,
{
    if n < 10 {
        assert(decimal(n).drop_last() =~= Seq::<char>::empty());
        assert(decimal_value(decimal(n).drop_last()) == 0);
    } else {
        lemma_decimal_value(n / 10);
        assert(decimal(n).drop_last() =~= decimal(n / 10));
    }
}

/// The header fields that every response carries, for a body of
/// `body_len` bytes. All but `Content-Length` are constants.
///
/// `Connection: keep-alive` is among them, yet a connection serves one
/// exchange and is then closed: the field promises more than is kept.
pub open spec fn standard_headers(body_len: nat) -> Seq<HeaderView> {
    seq![
        HeaderView { name: "Server"@, value: "ultra-hft/1.0"@ },
        HeaderView { name: "Content-Type"@, value: "application/json; charset=utf-8"@ },
        HeaderView { name: CONTENT_LENGTH@, value: decimal(body_len) },
        HeaderView { name: "X-Content-Type-Options"@, value: "nosniff"@ },
        HeaderView { name: "X-Frame-Options"@, value: "DENY"@ },
        HeaderView { name: "X-XSS-Protection"@, value: "1; mode=block"@ },
        HeaderView { name: "Cache-Control"@, value: "no-store, no-cache, must-revalidate"@ },
        HeaderView { name: "Connection"@, value: "keep-alive"@ },
    ]
}

/// The value of the first header field named `name` at or after `from`.
pub open spec fn header_value_from(headers: Seq<HeaderView>, name: Seq<char>, from: int) -> Option<
    Seq<char>,
>
    recommends
        0 <= from,
    decreases headers.len() - from,
{
    if from < 0 || from >= headers.len() {
        None
    } else if headers[from].name == name {
        Some(headers[from].value)
    } else {
        header_value_from(headers, name, from + 1)
    }
}

/// The value of the first header field named `name`.
pub open spec fn header_value(headers: Seq<HeaderView>, name: Seq<char>) -> Option<Seq<char>> {
    header_value_from(headers, name, 0)
}

/// A response as plain values.
pub struct ResponseView {
    pub status_line: Seq<char>,
    pub headers: Seq<HeaderView>,
    pub body: Seq<u8>,
}

/// The response with the given status line and body, and the standard
/// header fields for that body.
pub open spec fn response_of(status_line: Seq<char>, body: Seq<u8>) -> ResponseView {
    ResponseView { status_line, headers: standard_headers(body.len()), body }
}

/// A response carries the standard header fields for its own body.
pub open spec fn well_formed(r: ResponseView) -> bool {
    r.headers == standard_headers(r.body.len())
}

/// In a well-formed response the `Content-Length` field is the decimal
/// numeral of the number of bytes in the body, whatever those bytes are.
pub proof fn lemma_content_length(r: ResponseView)
    requires
        well_formed(r),
    ensures
        header_value(r.headers, CONTENT_LENGTH@) == Some(decimal(r.body.len())),
        decimal_value(header_value(r.headers, CONTENT_LENGTH@).unwrap()) == r.body.len(),
{
    reveal_strlit("Server");
    reveal_strlit("Content-Type");
    reveal_strlit("Content-Length");
    lemma_decimal_value(r.body.len());
    reveal_with_fuel(header_value_from, 4);
    assert("Server"@.len() != CONTENT_LENGTH@.len());
    assert("Content-Type"@.len() != CONTENT_LENGTH@.len());
}

/// A response: status line, header fields in the order in which they are
/// sent, and body.
///
/// The header fields are always the standard ones for the body that the
/// response holds, so `Content-Length` cannot disagree with the body.
#[derive(Debug, PartialEq, Eq)]
pub struct Response {
    status_line: String,
    headers: Vec<Header>,
    body: Vec<u8>,
}

impl View for Response {
    type V = ResponseView;

    closed spec fn view(&self) -> ResponseView {
        ResponseView {
            status_line: self.status_line@,
            headers: header_views(self.headers@),
            body: self.body@,
        }
    }
}

/// The text of one decimal digit.
fn digit_text(d: usize) -> (s: &'static str)
    requires
        d < 10,
    ensures
        s@ == seq![digit(d as nat)],
{
    proof {
        reveal_strlit("0");
        reveal_strlit("1");
        reveal_strlit("2");
        reveal_strlit("3");
        reveal_strlit("4");
        reveal_strlit("5");
        reveal_strlit("6");
        reveal_strlit("7");
        reveal_strlit("8");
        reveal_strlit("9");
    }
    let s = if d == 0 {
        "0"
    } else if d == 1 {
        "1"
    } else if d == 2 {
        "2"
    } else if d == 3 {
        "3"
    } else if d == 4 {
        "4"
    } else if d == 5 {
        "5"
    } else if d == 6 {
        "6"
    } else if d == 7 {
        "7"
    } else if d == 8 {
        "8"
    } else {
        "9"
    };
    assert(s@ =~= seq![digit(d as nat)]);
    s
}

/// Writes `n` as a decimal numeral.
pub fn decimal_string(n: usize) -> (s: String)
    ensures
        s@ == decimal(n as nat),
    decreases n,
{
    if n < 10 {
        digit_text(n).to_owned()
    } else {
        let mut s = decimal_string(n / 10);
        s.append(digit_text(n % 10));
        assert(s@ =~= decimal(n as nat));
        s
    }
}

/// A header field with the given name and value.
fn field(name: &str, value: &str) -> (h: Header)
    ensures
        h@ == (HeaderView { name: name@, value: value@ }),
{
    Header { name: name.to_owned(), value: value.to_owned() }
}

impl Response {
    #[verifier::type_invariant]
    spec fn carries_standard_headers(self) -> bool {
        well_formed(self@)
    }

    /// Builds the response with the given status line and body. The header
    /// fields are the standard ones, with `Content-Length` set to the number
    /// of bytes in `body`.
    pub fn new(status_line: &str, body: Vec<u8>) -> (resp: Response)
        ensures
            resp@ == response_of(status_line@, body@),
            well_formed(resp@),
    {
        let mut headers: Vec<Header> = Vec::new();
        headers.push(field("Server", "ultra-hft/1.0"));
        headers.push(field("Content-Type", "application/json; charset=utf-8"));
        let length = decimal_string(body.len());
        headers.push(field(CONTENT_LENGTH, length.as_str()));
        headers.push(field("X-Content-Type-Options", "nosniff"));
        headers.push(field("X-Frame-Options", "DENY"));
        headers.push(field("X-XSS-Protection", "1; mode=block"));
        headers.push(field("Cache-Control", "no-store, no-cache, must-revalidate"));
        headers.push(field("Connection", "keep-alive"));
        assert(header_views(headers@) =~= standard_headers(body@.len()));
        Response { status_line: status_line.to_owned(), headers, body }
    }

    /// The status line, such as `200 OK`.
    pub fn status_line(&self) -> (status_line: &str)
        ensures
            status_line@ == self@.status_line,
    {
        self.status_line.as_str()
    }

    /// The header fields, in the order in which they are sent.
    pub fn headers(&self) -> (headers: &[Header])
        ensures
            header_views(headers@) == self@.headers,
            well_formed(self@),
    {
        proof {
            use_type_invariant(self);
        }
        self.headers.as_slice()
    }

    /// The body.
    pub fn body(&self) -> (body: &[u8])
        ensures
            body@ == self@.body,
    {
        self.body.as_slice()
    }

    /// The value of the first header field named `name`, if there is one.
    pub fn header(&self, name: &str) -> (value: Option<&str>)
        ensures
            match value {
                Some(v) => header_value(self@.headers, name@) == Some(v@),
                None => header_value(self@.headers, name@) is None,
            },
            well_formed(self@),
    {
        proof {
            use_type_invariant(self);
        }
        let mut i: usize = 0;
        while i < self.headers.len()
            invariant
                i <= self.headers@.len(),
                well_formed(self@),
                header_value(header_views(self.headers@), name@) == header_value_from(
                    header_views(self.headers@),
                    name@,
                    i as int,
                ),
            decreases self.headers.len() - i,
        {
            if crate::text::same_text(self.headers[i].name.as_str(), name) {
                return Some(self.headers[i].value.as_str());
            }
            i = i + 1;
        }
        None
    }
}

} // verus!
