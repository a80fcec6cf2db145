//! One exchange from end to end: from the bytes of a read to the bytes of the
//! answer.

use vstd::prelude::*;
use crate::frame::{truncated, RawFrame, MAX_REQUEST_SIZE};
use crate::request::{
    lacks_method, lacks_path, method_in, parse, path_in, request_of, DEFAULT_PATH,
};
use crate::response::ResponseView;
use crate::router::{
    answer, in_standard_table, lemma_standard_not_found, not_found, standard_table, RouteView,
    Router,
};
use crate::text::{is_whitespace, lemma_token_at};
use crate::writer::{serialize, wire};

verus! {

/// The response that a table gives to the request in a frame.
pub open spec fn reply(table: Seq<RouteView>, frame: Seq<u8>) -> ResponseView {
    answer(table, request_of(frame).method, request_of(frame).path)
}

/// The response that a table gives to a request with the given request
/// line.
pub open spec fn reply_to_line(table: Seq<RouteView>, line: Seq<char>) -> ResponseView {
    answer(table, method_in(line), path_in(line))
}

/// What is written back for the bytes `data` of one read: nothing when the
/// read was empty, else the wire form of the reply to the frame that is kept
/// of `data`.
pub open spec fn written(table: Seq<RouteView>, data: Seq<u8>) -> Option<Seq<u8>> {
    if data.len() == 0 {
        None
    } else {
        Some(wire(reply(table, truncated(data, MAX_REQUEST_SIZE as int))))
    }
}

/// Answers the bytes of one read: frames them, parses the request, routes it
/// and lays the response out. An empty read, which means that the peer closed
/// the connection, gets no answer.
pub fn respond(router: &Router, data: &[u8]) -> (out: Option<Vec<u8>>)
    ensures
        match out {
            Some(bytes) => written(router@, data@) == Some(bytes@),
            None => written(router@, data@) is None,
        },
        out is None <==> data@.len() == 0,
{
    let frame = RawFrame::capture(data, MAX_REQUEST_SIZE);
    if frame.is_empty() {
        return None;
    }
    let req = parse(&frame);
    let resp = router.route(req.method.as_str(), req.path.as_str());
    Some(serialize(&resp))
}

/// The method is empty exactly when the request line has no token, it never
/// holds white space, and a missing method or path leaves the path at `/`.
pub proof fn lemma_method_in(line: Seq<char>)
    ensures
        lacks_method(line) <==> method_in(line).len() == 0,
        lacks_method(line) ==> path_in(line) == DEFAULT_PATH@,
        lacks_path(line) ==> path_in(line) == DEFAULT_PATH@,
        forall|i: int| 0 <= i < method_in(line).len() ==> !is_whitespace(#[trigger] method_in(line)[i]),
{
    lemma_token_at(line, 0);
}

/// A request line without a method is answered with not-found by the
/// standard table, and so is one without a path unless its method is `GET` or
/// `POST`, for which the default path `/` has a route.
pub proof fn lemma_malformed_line_is_not_found(line: Seq<char>)
    requires
        lacks_method(line) || (lacks_path(line) && method_in(line) != "GET"@ && method_in(line)
            != "POST"@),
    ensures
        lacks_method(line) ==> method_in(line) == Seq::<char>::empty(),
        path_in(line) == DEFAULT_PATH@,
        reply_to_line(standard_table(), line) == not_found(),
{
    lemma_method_in(line);
    reveal_strlit("GET");
    reveal_strlit("POST");
    reveal_strlit("/");
    reveal_strlit("/health");
    reveal_strlit("/metrics");
    reveal_strlit("/order");
    assert(method_in(line).len() == 0 ==> method_in(line) =~= Seq::<char>::empty());
    assert("/"@.len() != "/health"@.len());
    assert("/"@.len() != "/metrics"@.len());
    assert("/"@.len() != "/order"@.len());
    assert(!in_standard_table(method_in(line), path_in(line)));
    lemma_standard_not_found(method_in(line), path_in(line));
}

/// Whatever the bytes of a frame are, the standard table answers it with
/// not-found unless the method and path read from it are one of its five
/// pairs.
pub proof fn lemma_unlisted_is_not_found(frame: Seq<u8>)
    requires
        !in_standard_table(request_of(frame).method, request_of(frame).path),
    ensures
        reply(standard_table(), frame) == not_found(),
{
    lemma_standard_not_found(request_of(frame).method, request_of(frame).path);
}

} // verus!
