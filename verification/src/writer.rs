//! The wire form of a response.

use vstd::prelude::*;
use vstd::string::*;
use vstd::utf8::*;
use crate::response::{
    decimal, header_value, header_views, lemma_content_length, well_formed, HeaderView, Response,
    ResponseView, CONTENT_LENGTH,
};

verus! {

/// One header field as it is sent: name, a colon and a space, value, CRLF.
pub open spec fn header_line(h: HeaderView) -> Seq<char> {
    h.name + ": "@ + h.value + "\r\n"@
}

/// The lines of the header fields, in the order given.
pub open spec fn header_lines(headers: Seq<HeaderView>) -> Seq<char>
    decreases headers.len(),
{
    if headers.len() == 0 {
        Seq::empty()
    } else {
        header_lines(headers.drop_last()) + header_line(headers.last())
    }
}

/// All that is sent before the body: the status line behind `HTTP/1.1 `, the
/// header fields, and the blank line that ends them.
pub open spec fn head(r: ResponseView) -> Seq<char> {
    "HTTP/1.1 "@ + r.status_line + "\r\n"@ + header_lines(r.headers) + "\r\n"@
}

/// The bytes of a response on the wire: the head in UTF-8, then the body as
/// it is, with nothing after it.
pub open spec fn wire(r: ResponseView) -> Seq<u8> {
    encode_utf8(head(r)) + r.body
}

/// Lays a response out as the bytes of a single write.
pub fn serialize(resp: &Response) -> (out: Vec<u8>)
    ensures
        out@ == wire(resp@),
        well_formed(resp@),
        header_value(resp@.headers, CONTENT_LENGTH@) == Some(decimal(resp@.body.len())),
{
    let mut text = String::from_str("HTTP/1.1 ");
    text.append(resp.status_line());
    text.append("\r\n");
    let headers = resp.headers();
    let ghost views = resp@.headers;
    let ghost start = text@;
    assert(views.take(0) =~= Seq::<HeaderView>::empty());
    let mut i: usize = 0;
    while i < headers.len()
        invariant
            i <= headers@.len(),
            views == header_views(headers@),
            text@ == start + header_lines(views.take(i as int)),
        decreases headers.len() - i,
    {
        let ghost before = text@;
        text.append(headers[i].name.as_str());
        text.append(": ");
        text.append(headers[i].value.as_str());
        text.append("\r\n");
        proof {
            let next = views.take(i + 1);
            assert(next.drop_last() =~= views.take(i as int));
            assert(next.last() == headers@[i as int]@);
            assert(text@ =~= before + header_line(headers@[i as int]@));
            assert(text@ =~= start + header_lines(next));
        }
        i = i + 1;
    }
    text.append("\r\n");
    proof {
        assert(views.take(i as int) =~= views);
        assert(text@ =~= head(resp@));
        lemma_content_length(resp@);
    }
    let mut out = text.as_str().as_bytes_vec();
    let body = resp.body();
    let mut k: usize = 0;
    while k < body.len()
        invariant
            k <= body@.len(),
            out@ == encode_utf8(text@) + body@.take(k as int),
        decreases body.len() - k,
    {
        out.push(body[k]);
        assert(body@.take(k + 1) =~= body@.take(k as int).push(body@[k as int]));
        k = k + 1;
    }
    assert(body@.take(k as int) =~= body@);
    out
}

} // verus!
