use minihttp::connection::{Action, Connection, Event};
use minihttp::request::Request;
use minihttp::response::Response;
use minihttp::router::Router;
use minihttp::writer::serialize;

fn reading(router: &Router) -> Connection {
    let (conn, action) = Connection::new().step(Event::Proceed, router);
    assert_eq!(action, Action::Read { max_size: 8192 });
    conn
}

fn events() -> Vec<Event> {
    vec![
        Event::Proceed,
        Event::ReadDone(Vec::new()),
        Event::ReadDone(b"GET / HTTP/1.1\r\n\r\n".to_vec()),
        Event::ReadFailed,
        Event::WriteDone,
        Event::WriteFailed,
    ]
}

#[test]
fn new_connection_is_accepted() {
    assert_eq!(Connection::new(), Connection::Accepted);
    assert!(!Connection::new().is_over());
}

#[test]
fn accepted_connection_asks_for_one_bounded_read() {
    let router = Router::standard();
    let (conn, action) = Connection::new().step(Event::Proceed, &router);
    assert_eq!(conn, Connection::Reading);
    assert_eq!(action, Action::Read { max_size: 8192 });
}

#[test]
fn connection_walks_through_every_state() {
    let router = Router::standard();
    let conn = reading(&router);

    let (conn, action) =
        conn.step(Event::ReadDone(b"GET /health HTTP/1.1\r\nHost: x\r\n\r\n".to_vec()), &router);
    assert_eq!(
        conn,
        Connection::Parsed(Request {
            method: "GET".to_string(),
            path: "/health".to_string(),
            header_end: 29,
            body: Vec::new(),
        })
    );
    assert_eq!(action, Action::Proceed);
    assert!(!conn.is_over());

    let (conn, action) = conn.step(Event::Proceed, &router);
    let healthy = Response::new("200 OK", b"{ \"status\": \"healthy\" }".to_vec());
    assert_eq!(conn, Connection::Routed(Response::new("200 OK", b"{ \"status\": \"healthy\" }".to_vec())));
    assert_eq!(action, Action::Proceed);

    let (conn, action) = conn.step(Event::Proceed, &router);
    assert_eq!(conn, Connection::Writing);
    assert_eq!(action, Action::Write(serialize(&healthy)));

    let (conn, action) = conn.step(Event::WriteDone, &router);
    assert_eq!(conn, Connection::Closed);
    assert_eq!(action, Action::Close);
    assert!(conn.is_over());
}

#[test]
fn empty_read_closes_without_a_response() {
    let router = Router::standard();
    let (conn, action) = reading(&router).step(Event::ReadDone(Vec::new()), &router);
    assert_eq!(conn, Connection::Closed);
    assert_eq!(action, Action::Close);
}

#[test]
fn failed_read_aborts_without_a_response() {
    let router = Router::standard();
    let (conn, action) = reading(&router).step(Event::ReadFailed, &router);
    assert_eq!(conn, Connection::Aborted);
    assert_eq!(action, Action::Abort);
    assert!(conn.is_over());
}

#[test]
fn failed_write_aborts() {
    let router = Router::standard();
    let (conn, action) = Connection::Writing.step(Event::WriteFailed, &router);
    assert_eq!(conn, Connection::Aborted);
    assert_eq!(action, Action::Abort);
}

#[test]
fn closed_connection_stays_closed_and_asks_for_nothing() {
    let router = Router::standard();
    for event in events() {
        let (conn, action) = Connection::Closed.step(event, &router);
        assert_eq!(conn, Connection::Closed);
        assert_eq!(action, Action::Nothing);
    }
}

#[test]
fn aborted_connection_stays_aborted_and_asks_for_nothing() {
    let router = Router::standard();
    for event in events() {
        let (conn, action) = Connection::Aborted.step(event, &router);
        assert_eq!(conn, Connection::Aborted);
        assert_eq!(action, Action::Nothing);
    }
}

#[test]
fn unexpected_event_aborts_a_live_connection() {
    let router = Router::standard();
    let unexpected = [
        (Connection::Accepted, Event::ReadDone(b"x".to_vec())),
        (Connection::Accepted, Event::ReadFailed),
        (Connection::Accepted, Event::WriteDone),
        (Connection::Accepted, Event::WriteFailed),
        (Connection::Reading, Event::Proceed),
        (Connection::Reading, Event::WriteDone),
        (Connection::Reading, Event::WriteFailed),
        (Connection::Writing, Event::Proceed),
        (Connection::Writing, Event::ReadDone(Vec::new())),
        (Connection::Writing, Event::ReadFailed),
    ];
    for (state, event) in unexpected {
        let (conn, action) = state.step(event, &router);
        assert_eq!(conn, Connection::Aborted);
        assert_eq!(action, Action::Abort);
    }
}

#[test]
fn parsed_and_routed_states_abort_on_anything_but_proceed() {
    let router = Router::standard();
    for event in events() {
        if event == Event::Proceed {
            continue;
        }
        let parsed = Connection::Parsed(Request {
            method: "GET".to_string(),
            path: "/".to_string(),
            header_end: 0,
            body: Vec::new(),
        });
        assert_eq!(parsed.step(event, &router), (Connection::Aborted, Action::Abort));
    }
    for event in events() {
        if event == Event::Proceed {
            continue;
        }
        let routed = Connection::Routed(Response::new("200 OK", Vec::new()));
        assert_eq!(routed.step(event, &router), (Connection::Aborted, Action::Abort));
    }
}

#[test]
fn parsed_state_routes_its_own_request() {
    let router = Router::standard();
    let parsed = Connection::Parsed(Request {
        method: "POST".to_string(),
        path: "/order".to_string(),
        header_end: 7,
        body: b"ignored".to_vec(),
    });
    let (conn, action) = parsed.step(Event::Proceed, &router);
    assert_eq!(conn, Connection::Routed(router.route("POST", "/order")));
    assert_eq!(action, Action::Proceed);
}

#[test]
fn routed_state_writes_its_own_response() {
    let router = Router::standard();
    let (conn, action) =
        Connection::Routed(Response::new("200 OK", b"mine".to_vec())).step(Event::Proceed, &router);
    assert_eq!(conn, Connection::Writing);
    assert_eq!(action, Action::Write(serialize(&Response::new("200 OK", b"mine".to_vec()))));
}

#[test]
fn read_longer_than_the_limit_is_cut_before_parsing() {
    let router = Router::standard();
    let mut data = vec![b' '; 8190];
    data.extend_from_slice(b"GET /health HTTP/1.1\r\n\r\n");
    let (conn, _) = reading(&router).step(Event::ReadDone(data), &router);
    assert_eq!(
        conn,
        Connection::Parsed(Request {
            method: "GE".to_string(),
            path: "/".to_string(),
            header_end: 8192,
            body: Vec::new(),
        })
    );
}

#[test]
fn connection_uses_the_table_it_is_given() {
    let mut router = Router::new();
    router.register("GET", "/health", "200 OK", b"custom");
    let conn = reading(&router);
    let (conn, _) = conn.step(Event::ReadDone(b"GET /health HTTP/1.1\r\n\r\n".to_vec()), &router);
    let (conn, _) = conn.step(Event::Proceed, &router);
    let (_, action) = conn.step(Event::Proceed, &router);
    assert_eq!(action, Action::Write(serialize(&Response::new("200 OK", b"custom".to_vec()))));
}
