//! The route table: from a method and a path to a response.
//!
//! A request is matched on its exact method and path, both case-sensitive.
//! Of two routes registered for the same pair, the one registered first
//! answers. Whatever matches no route gets the not-found response, which is
//! an ordinary answer and no failure.

use vstd::prelude::*;
use vstd::slice::*;
use vstd::string::*;
use vstd::utf8::*;
use crate::response::{response_of, well_formed, Response, ResponseView};
use crate::text::same_text;
use crate::writer::wire;

verus! {

/// Status line of every answer that a route of the standard table gives.
pub const STATUS_OK: &'static str = "200 OK";

/// Status line of the answer to a request that no route matches.
pub const STATUS_NOT_FOUND: &'static str = "404 NOT FOUND";

/// Body of the answer to `GET /`.
pub const ROOT_GET_BODY: &'static str = r#"{ "status": "ok", "method": "GET" }"#;

/// Body of the answer to `POST /`.
pub const ROOT_POST_BODY: &'static str = r#"{ "status": "ok", "method": "POST" }"#;

/// Body of the answer to `GET /health`.
pub const HEALTH_BODY: &'static str = r#"{ "status": "healthy" }"#;

/// Body of the answer to `GET /metrics`.
pub const METRICS_BODY: &'static str = r#"{ "uptime": 12345, "requests": 987 }"#;

/// Body of the answer to `POST /order`.
pub const ORDER_BODY: &'static str = r#"{ "status": "order_received" }"#;

/// Body of the answer to a request that no route matches.
pub const NOT_FOUND_BODY: &'static str = r#"{ "error": "not_found" }"#;

/// A method and a path, and the fixed answer to a request for them.
#[derive(Debug, PartialEq, Eq)]
pub struct Route {
    pub method: String,
    pub path: String,
    pub status_line: String,
    pub body: Vec<u8>,
}

/// A route as plain values.
pub struct RouteView {
    pub method: Seq<char>,
    pub path: Seq<char>,
    pub status_line: Seq<char>,
    pub body: Seq<u8>,
}

impl View for Route {
    type V = RouteView;

    open spec fn view(&self) -> RouteView {
        RouteView {
            method: self.method@,
            path: self.path@,
            status_line: self.status_line@,
            body: self.body@,
        }
    }
}

/// The views of a sequence of routes, in order.
pub open spec fn route_views(routes: Seq<Route>) -> Seq<RouteView> {
    routes.map_values(|r: Route| r@)
}

/// A route answers a request when both its method and its path are exactly
/// those of the request.
pub open spec fn route_matches(route: RouteView, method: Seq<char>, path: Seq<char>) -> bool {
    route.method == method && route.path == path
}

/// The index of the first route at or after `from` that matches.
pub open spec fn first_match(
    table: Seq<RouteView>,
    method: Seq<char>,
    path: Seq<char>,
    from: int,
) -> Option<int>
    recommends
        0 <= from,
    decreases table.len() - from,
{
    if from < 0 || from >= table.len() {
        None
    } else if route_matches(table[from], method, path) {
        Some(from)
    } else {
        first_match(table, method, path, from + 1)
    }
}

/// The answer to a request that no route matches.
pub open spec fn not_found() -> ResponseView {
    response_of(STATUS_NOT_FOUND@, encode_utf8(NOT_FOUND_BODY@))
}

/// The answer that a table gives to a method and a path: that of the first
/// route that matches, or the not-found response.
pub open spec fn answer(table: Seq<RouteView>, method: Seq<char>, path: Seq<char>) -> ResponseView {
    match first_match(table, method, path, 0) {
        Some(i) => response_of(table[i].status_line, table[i].body),
        None => not_found(),
    }
}

/// The route with the given method and path that answers `200 OK` with the
/// given text as its body.
pub open spec fn ok_route(method: Seq<char>, path: Seq<char>, body: Seq<char>) -> RouteView {
    RouteView { method, path, status_line: STATUS_OK@, body: encode_utf8(body) }
}

/// The routes of the standard table.
pub open spec fn standard_table() -> Seq<RouteView> {
    seq![
        ok_route("GET"@, "/"@, ROOT_GET_BODY@),
        ok_route("POST"@, "/"@, ROOT_POST_BODY@),
        ok_route("GET"@, "/health"@, HEALTH_BODY@),
        ok_route("GET"@, "/metrics"@, METRICS_BODY@),
        ok_route("POST"@, "/order"@, ORDER_BODY@),
    ]
}

/// The method and path are one of the five pairs of the standard table.
pub open spec fn in_standard_table(method: Seq<char>, path: Seq<char>) -> bool {
    ||| method == "GET"@ && path == "/"@
    ||| method == "POST"@ && path == "/"@
    ||| method == "GET"@ && path == "/health"@
    ||| method == "GET"@ && path == "/metrics"@
    ||| method == "POST"@ && path == "/order"@
}

/// `first_match` is the least index from `from` on whose route matches, and
/// it is `None` exactly when no route from `from` on matches.
pub proof fn lemma_first_match(
    table: Seq<RouteView>,
    method: Seq<char>,
    path: Seq<char>,
    from: int,
)
    requires
        0 <= from <= table.len(),
    ensures
        match first_match(table, method, path, from) {
            Some(i) => {
                &&& from <= i < table.len()
                &&& route_matches(table[i], method, path)
                &&& forall|j: int| from <= j < i ==> !route_matches(table[j], method, path)
            },
            None => forall|j: int|
                from <= j < table.len() ==> !route_matches(table[j], method, path),
        },
    decreases table.len() - from,
{
    if from < table.len() && !route_matches(table[from], method, path) {
        lemma_first_match(table, method, path, from + 1);
    }
}

/// A request that no route of the table matches gets exactly the not-found
/// response.
pub proof fn lemma_unmatched_is_not_found(
    table: Seq<RouteView>,
    method: Seq<char>,
    path: Seq<char>,
)
    requires
        forall|i: int| 0 <= i < table.len() ==> !route_matches(table[i], method, path),
    ensures
        answer(table, method, path) == not_found(),
{
    lemma_first_match(table, method, path, 0);
}

/// Every answer is well formed: it carries the standard header fields for
/// its own body.
pub proof fn lemma_answer_well_formed(table: Seq<RouteView>, method: Seq<char>, path: Seq<char>)
    ensures
        well_formed(answer(table, method, path)),
{
}

/// Routing is a function of the table, the method and the path: equal
/// requests to equal tables get equal responses, and so equal bytes on the
/// wire.
pub proof fn lemma_routing_is_deterministic(
    table_a: Seq<RouteView>,
    table_b: Seq<RouteView>,
    method_a: Seq<char>,
    method_b: Seq<char>,
    path_a: Seq<char>,
    path_b: Seq<char>,
)
    requires
        table_a == table_b,
        method_a == method_b,
        path_a == path_b,
    ensures
        answer(table_a, method_a, path_a) == answer(table_b, method_b, path_b),
        wire(answer(table_a, method_a, path_a)) == wire(answer(table_b, method_b, path_b)),
{
}

/// Registering a route changes no answer but that for its own method and
/// path, and changes that one only if no route before it took it.
pub proof fn lemma_register(
    table: Seq<RouteView>,
    route: RouteView,
    method: Seq<char>,
    path: Seq<char>,
)
    ensures
        first_match(table, method, path, 0) is Some ==> answer(table.push(route), method, path)
            == answer(table, method, path),
        !route_matches(route, method, path) ==> answer(table.push(route), method, path) == answer(
            table,
            method,
            path,
        ),
        first_match(table, method, path, 0) is None && route_matches(route, method, path)
            ==> answer(table.push(route), method, path) == response_of(
            route.status_line,
            route.body,
        ),
{
    lemma_push_first_match(table, route, method, path, 0);
}

/// What `first_match` finds in a table with one more route at its end.
proof fn lemma_push_first_match(
    table: Seq<RouteView>,
    route: RouteView,
    method: Seq<char>,
    path: Seq<char>,
    from: int,
)
    requires
        0 <= from <= table.len(),
    ensures
        first_match(table.push(route), method, path, from) == match first_match(
            table,
            method,
            path,
            from,
        ) {
            Some(i) => Some(i),
            None => if route_matches(route, method, path) {
                Some(table.len() as int)
            } else {
                None
            },
        },
        first_match(table, method, path, from) matches Some(i) ==> i < table.len()
            && table.push(route)[i] == table[i],
    decreases table.len() - from,
{
    let longer = table.push(route);
    if from < table.len() {
        assert(longer[from] == table[from]);
        if !route_matches(table[from], method, path) {
            lemma_push_first_match(table, route, method, path, from + 1);
        }
    } else {
        assert(longer[from] == route);
        assert(first_match(longer, method, path, from + 1) is None);
    }
}

/// The standard table answers each of its five pairs with `200 OK` and the
/// body that belongs to the pair.
pub proof fn lemma_standard_answers()
    ensures
        answer(standard_table(), "GET"@, "/"@) == response_of(
            STATUS_OK@,
            encode_utf8(ROOT_GET_BODY@),
        ),
        answer(standard_table(), "POST"@, "/"@) == response_of(
            STATUS_OK@,
            encode_utf8(ROOT_POST_BODY@),
        ),
        answer(standard_table(), "GET"@, "/health"@) == response_of(
            STATUS_OK@,
            encode_utf8(HEALTH_BODY@),
        ),
        answer(standard_table(), "GET"@, "/metrics"@) == response_of(
            STATUS_OK@,
            encode_utf8(METRICS_BODY@),
        ),
        answer(standard_table(), "POST"@, "/order"@) == response_of(
            STATUS_OK@,
            encode_utf8(ORDER_BODY@),
        ),
{
    reveal_strlit("GET");
    reveal_strlit("POST");
    reveal_strlit("/");
    reveal_strlit("/health");
    reveal_strlit("/metrics");
    reveal_strlit("/order");
    reveal_with_fuel(first_match, 6);
    assert("GET"@.len() != "POST"@.len());
    assert("/"@.len() != "/health"@.len());
    assert("/"@.len() != "/metrics"@.len());
    assert("/"@.len() != "/order"@.len());
    assert("/health"@.len() != "/metrics"@.len());
    assert("/health"@.len() != "/order"@.len());
    assert("/metrics"@.len() != "/order"@.len());
}

/// The standard table answers every method and path outside its five pairs
/// with exactly the not-found response.
pub proof fn lemma_standard_not_found(method: Seq<char>, path: Seq<char>)
    requires
        !in_standard_table(method, path),
    ensures
        answer(standard_table(), method, path) == not_found(),
{
    lemma_unmatched_is_not_found(standard_table(), method, path);
}

/// The table of routes. It is filled once, before the first request, and
/// only read after that.
#[derive(Debug)]
pub struct Router {
    routes: Vec<Route>,
}

impl View for Router {
    type V = Seq<RouteView>;

    closed spec fn view(&self) -> Seq<RouteView> {
        route_views(self.routes@)
    }
}

/// The not-found response.
pub fn not_found_response() -> (resp: Response)
    ensures
        resp@ == not_found(),
{
    Response::new(STATUS_NOT_FOUND, slice_to_vec(NOT_FOUND_BODY.as_bytes()))
}

impl Router {
    /// A table without routes: it answers everything with not-found.
    pub fn new() -> (router: Router)
        ensures
            router@ == Seq::<RouteView>::empty(),
    {
        let router = Router { routes: Vec::new() };
        assert(router@ =~= Seq::<RouteView>::empty());
        router
    }

    /// The standard table.
    pub fn standard() -> (router: Router)
        ensures
            router@ == standard_table(),
    {
        let mut router = Router::new();
        router.register("GET", "/", STATUS_OK, ROOT_GET_BODY.as_bytes());
        router.register("POST", "/", STATUS_OK, ROOT_POST_BODY.as_bytes());
        router.register("GET", "/health", STATUS_OK, HEALTH_BODY.as_bytes());
        router.register("GET", "/metrics", STATUS_OK, METRICS_BODY.as_bytes());
        router.register("POST", "/order", STATUS_OK, ORDER_BODY.as_bytes());
        assert(router@ =~= standard_table());
        router
    }

    /// Adds a route at the end of the table.
    pub fn register(&mut self, method: &str, path: &str, status_line: &str, body: &[u8])
        ensures
            final(self)@ == old(self)@.push(
                RouteView { method: method@, path: path@, status_line: status_line@, body: body@ },
            ),
    {
        let route = Route {
            method: method.to_owned(),
            path: path.to_owned(),
            status_line: status_line.to_owned(),
            body: slice_to_vec(body),
        };
        self.routes.push(route);
        assert(self@ =~= old(self)@.push(route@));
    }

    /// The number of routes in the table.
    pub fn len(&self) -> (len: usize)
        ensures
            len == self@.len(),
    {
        self.routes.len()
    }

    /// Answers a request for `method` and `path`.
    ///
    /// The answer depends on the table, the method and the path alone, so the
    /// same request always gets the same response, byte for byte.
    pub fn route(&self, method: &str, path: &str) -> (resp: Response)
        ensures
            resp@ == answer(self@, method@, path@),
            well_formed(resp@),
            (forall|i: int| 0 <= i < self@.len() ==> !route_matches(self@[i], method@, path@))
                ==> resp@ == not_found(),
    {
        proof {
            lemma_first_match(self@, method@, path@, 0);
        }
        let mut i: usize = 0;
        while i < self.routes.len()
            invariant
                i <= self.routes@.len(),
                self@ == route_views(self.routes@),
                first_match(self@, method@, path@, 0) == first_match(
                    self@,
                    method@,
                    path@,
                    i as int,
                ),
            decreases self.routes.len() - i,
        {
            let route = &self.routes[i];
            if same_text(route.method.as_str(), method) && same_text(route.path.as_str(), path) {
                return Response::new(route.status_line.as_str(), slice_to_vec(route.body.as_slice()));
            }
            i = i + 1;
        }
        not_found_response()
    }
}

} // verus!
