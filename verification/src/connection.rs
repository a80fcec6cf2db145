//! The life of one connection, as a state machine.
//!
//! The machine does no socket work. Each step takes the outcome of the
//! last piece of outside work as an event and answers with the next state and
//! the next thing to do: read, write, go on, or let go of the socket. A
//! connection serves one request and is then closed, whatever the
//! `Connection` header field of the response says.
//!
//! A connection goes from `Accepted` through `Reading`, `Parsed`, `Routed`
//! and `Writing` to `Closed`. An empty read takes it from `Reading` straight
//! to `Closed`; a failed read or write takes it to `Aborted`.
//!
//! An event that a state does not expect is taken as a failure and aborts the
//! connection. A failure never leaves the connection it happened on: nothing
//! here is shared with another connection or with the listener.

use vstd::prelude::*;
use crate::exchange::{reply, written};
use crate::frame::{truncated, RawFrame, MAX_REQUEST_SIZE};
use crate::request::{parse, request_of, Request, RequestView};
use crate::response::{Response, ResponseView};
use crate::router::{answer, RouteView, Router};
use crate::writer::{serialize, wire};

verus! {

/// The state of a connection.
#[derive(Debug, PartialEq, Eq)]
pub enum Connection {
    /// Taken from the listener; nothing read yet.
    Accepted,
    /// The one read is under way.
    Reading,
    /// The frame has been parsed into this request.
    Parsed(Request),
    /// The router has answered with this response.
    Routed(Response),
    /// The write of the response is under way.
    Writing,
    /// Done without failure. Terminal.
    Closed,
    /// Given up after a failure. Terminal.
    Aborted,
}

/// The outcome of the outside work that the last action asked for.
#[derive(Debug, PartialEq, Eq)]
pub enum Event {
    /// The last action asked for no outside work.
    Proceed,
    /// The read returned these bytes; none when the peer has closed.
    ReadDone(Vec<u8>),
    /// The read failed.
    ReadFailed,
    /// All bytes were written.
    WriteDone,
    /// The write failed.
    WriteFailed,
}

/// What the driver of a connection is to do next.
#[derive(Debug, PartialEq, Eq)]
pub enum Action {
    /// Read once, at most `max_size` bytes, and report `ReadDone` or
    /// `ReadFailed`.
    Read { max_size: usize },
    /// Nothing outside; report `Proceed`.
    Proceed,
    /// Write all of these bytes and report `WriteDone` or `WriteFailed`.
    Write(Vec<u8>),
    /// Release the socket. The exchange ended in order.
    Close,
    /// Release the socket and log the failure. No response is sent.
    Abort,
    /// The connection is over already; there is nothing left to do.
    Nothing,
}

/// A state as plain values.
pub enum ConnectionView {
    Accepted,
    Reading,
    Parsed(RequestView),
    Routed(ResponseView),
    Writing,
    Closed,
    Aborted,
}

/// An event as plain values.
pub enum EventView {
    Proceed,
    ReadDone(Seq<u8>),
    ReadFailed,
    WriteDone,
    WriteFailed,
}

/// An action as plain values.
pub enum ActionView {
    Read { max_size: int },
    Proceed,
    Write(Seq<u8>),
    Close,
    Abort,
    Nothing,
}

impl View for Connection {
    type V = ConnectionView;

    open spec fn view(&self) -> ConnectionView {
        match self {
            Connection::Accepted => ConnectionView::Accepted,
            Connection::Reading => ConnectionView::Reading,
            Connection::Parsed(req) => ConnectionView::Parsed(req@),
            Connection::Routed(resp) => ConnectionView::Routed(resp@),
            Connection::Writing => ConnectionView::Writing,
            Connection::Closed => ConnectionView::Closed,
            Connection::Aborted => ConnectionView::Aborted,
        }
    }
}

impl View for Event {
    type V = EventView;

    open spec fn view(&self) -> EventView {
        match self {
            Event::Proceed => EventView::Proceed,
            Event::ReadDone(data) => EventView::ReadDone(data@),
            Event::ReadFailed => EventView::ReadFailed,
            Event::WriteDone => EventView::WriteDone,
            Event::WriteFailed => EventView::WriteFailed,
        }
    }
}

impl View for Action {
    type V = ActionView;

    open spec fn view(&self) -> ActionView {
        match self {
            Action::Read { max_size } => ActionView::Read { max_size: *max_size as int },
            Action::Proceed => ActionView::Proceed,
            Action::Write(bytes) => ActionView::Write(bytes@),
            Action::Close => ActionView::Close,
            Action::Abort => ActionView::Abort,
            Action::Nothing => ActionView::Nothing,
        }
    }
}

/// A connection in this state is over.
pub open spec fn is_terminal(state: ConnectionView) -> bool {
    state is Closed || state is Aborted
}

/// How far along a state is. Every step of a live connection moves to a
/// state of higher rank.
pub open spec fn rank(state: ConnectionView) -> nat {
    match state {
        ConnectionView::Accepted => 0,
        ConnectionView::Reading => 1,
        ConnectionView::Parsed(_) => 2,
        ConnectionView::Routed(_) => 3,
        ConnectionView::Writing => 4,
        ConnectionView::Closed => 5,
        ConnectionView::Aborted => 5,
    }
}

/// The state that follows `state` on `event`, and the action to take, for a
/// connection served from the routes of `table`.
pub open spec fn next(state: ConnectionView, event: EventView, table: Seq<RouteView>) -> (
    ConnectionView,
    ActionView,
) {
    match (state, event) {
        (ConnectionView::Closed, _) => (ConnectionView::Closed, ActionView::Nothing),
        (ConnectionView::Aborted, _) => (ConnectionView::Aborted, ActionView::Nothing),
        (ConnectionView::Accepted, EventView::Proceed) => (
            ConnectionView::Reading,
            ActionView::Read { max_size: MAX_REQUEST_SIZE as int },
        ),
        (ConnectionView::Reading, EventView::ReadDone(data)) => if data.len() == 0 {
            (ConnectionView::Closed, ActionView::Close)
        } else {
            (
                ConnectionView::Parsed(request_of(truncated(data, MAX_REQUEST_SIZE as int))),
                ActionView::Proceed,
            )
        },
        (ConnectionView::Parsed(req), EventView::Proceed) => (
            ConnectionView::Routed(answer(table, req.method, req.path)),
            ActionView::Proceed,
        ),
        (ConnectionView::Routed(resp), EventView::Proceed) => (
            ConnectionView::Writing,
            ActionView::Write(wire(resp)),
        ),
        (ConnectionView::Writing, EventView::WriteDone) => (
            ConnectionView::Closed,
            ActionView::Close,
        ),
        _ => (ConnectionView::Aborted, ActionView::Abort),
    }
}

impl Connection {
    /// The state of a connection that the listener has just accepted.
    pub fn new() -> (conn: Connection)
        ensures
            conn@ == ConnectionView::Accepted,
    {
        Connection::Accepted
    }

    /// Tells whether the connection is over.
    pub fn is_over(&self) -> (over: bool)
        ensures
            over == is_terminal(self@),
    {
        match self {
            Connection::Closed => true,
            Connection::Aborted => true,
            _ => false,
        }
    }

    /// Takes one step: from this state and the outcome of the last action to
    /// the next state and the next action.
    pub fn step(self, event: Event, router: &Router) -> (out: (Connection, Action))
        ensures
            (out.0@, out.1@) == next(self@, event@, router@),
            self@ is Reading && event@ == EventView::ReadDone(Seq::empty()) ==> out.0@
                is Closed && out.1@ is Close,
            out.1@ is Write ==> self@ is Routed,
            out.1@ is Read ==> self@ is Accepted,
            is_terminal(self@) ==> out.0@ == self@ && out.1@ is Nothing,
            !is_terminal(self@) ==> rank(out.0@) > rank(self@),
    {
        match (self, event) {
            (Connection::Closed, _) => (Connection::Closed, Action::Nothing),
            (Connection::Aborted, _) => (Connection::Aborted, Action::Nothing),
            (Connection::Accepted, Event::Proceed) => (
                Connection::Reading,
                Action::Read { max_size: MAX_REQUEST_SIZE },
            ),
            (Connection::Reading, Event::ReadDone(data)) => {
                if data.len() == 0 {
                    (Connection::Closed, Action::Close)
                } else {
                    let frame = RawFrame::capture(data.as_slice(), MAX_REQUEST_SIZE);
                    (Connection::Parsed(parse(&frame)), Action::Proceed)
                }
            },
            (Connection::Parsed(req), Event::Proceed) => {
                let resp = router.route(req.method.as_str(), req.path.as_str());
                (Connection::Routed(resp), Action::Proceed)
            },
            (Connection::Routed(resp), Event::Proceed) => (
                Connection::Writing,
                Action::Write(serialize(&resp)),
            ),
            (Connection::Writing, Event::WriteDone) => (Connection::Closed, Action::Close),
            _ => (Connection::Aborted, Action::Abort),
        }
    }
}

/// An empty read ends the connection in order: it goes to `Closed`, nothing
/// is written, and no failure is reported.
pub proof fn lemma_empty_read_closes(table: Seq<RouteView>)
    ensures
        next(ConnectionView::Reading, EventView::ReadDone(Seq::empty()), table) == (
            ConnectionView::Closed,
            ActionView::Close,
        ),
{
}

/// A connection that is over stays as it is and asks for nothing more: no
/// read and no write happens on it again.
pub proof fn lemma_terminal_stays(state: ConnectionView, event: EventView, table: Seq<RouteView>)
    requires
        is_terminal(state),
    ensures
        next(state, event, table) == (state, ActionView::Nothing),
{
}

/// Every step of a live connection moves it forward. So a connection is read
/// once at most and written once at most: a read is asked for only on
/// leaving `Accepted`, a write only on leaving `Routed`, and no state is
/// entered twice.
pub proof fn lemma_step_moves_forward(
    state: ConnectionView,
    event: EventView,
    table: Seq<RouteView>,
)
    requires
        !is_terminal(state),
    ensures
        rank(next(state, event, table).0) > rank(state),
        next(state, event, table).1 is Read ==> state is Accepted,
        next(state, event, table).1 is Write ==> state is Routed,
        next(state, event, table).1 !is Nothing,
{
}

/// A failed read or write aborts the connection, and so does any event that
/// the state does not expect. Nothing is written then.
pub proof fn lemma_failure_aborts(state: ConnectionView, event: EventView, table: Seq<RouteView>)
    requires
        !is_terminal(state),
        event is ReadFailed || event is WriteFailed,
    ensures
        next(state, event, table) == (ConnectionView::Aborted, ActionView::Abort),
{
}

/// A connection that reads something goes on, without any outside work, to
/// write exactly the reply to that read, and closes once it is written. What
/// it writes depends on its own read and on the table alone.
pub proof fn lemma_served_once(data: Seq<u8>, table: Seq<RouteView>)
    requires
        data.len() > 0,
    ensures
        ({
            let parsed = next(ConnectionView::Reading, EventView::ReadDone(data), table);
            let routed = next(parsed.0, EventView::Proceed, table);
            let writing = next(routed.0, EventView::Proceed, table);
            let closed = next(writing.0, EventView::WriteDone, table);
            &&& parsed.1 is Proceed
            &&& routed.1 is Proceed
            &&& writing.0 is Writing
            &&& Some(writing.1->Write_0) == written(table, data)
            &&& writing.1 == ActionView::Write(
                wire(reply(table, truncated(data, MAX_REQUEST_SIZE as int))),
            )
            &&& closed == (ConnectionView::Closed, ActionView::Close)
        }),
{
}

} // verus!
