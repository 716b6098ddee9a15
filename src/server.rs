//! The accept loop as a state machine.
//!
//! The loop is driven from outside: the driver performs the [`Action`] that the
//! last [`step`] returned, reports what came of it as an [`Event`], and calls
//! [`step`] again. Connections are serviced inline, one at a time, and a
//! cancellation ends the loop for good.
use vstd::prelude::*;

use crate::protocol::{is_ping, ping_bytes, pong, pong_bytes};

verus! {

/// Where the accept loop stands.
#[derive(Clone, Copy, Debug, PartialEq, Eq, Structural)]
pub enum ServerState {
    /// An accept is outstanding; no connection is being serviced.
    AwaitingConnection,
    /// A connection was accepted and its four request bytes are being read.
    Reading,
    /// The reply is being written to the connection.
    Replying,
    /// The loop was cancelled; nothing is accepted any more.
    Stopped,
}

/// What came of the action that the driver last performed.
#[derive(Clone, Copy, Debug)]
pub enum Event {
    /// The outstanding accept returned a connection.
    Accepted,
    /// The outstanding accept failed.
    AcceptFailed,
    /// Exactly four bytes were read from the connection.
    Received([u8; 4]),
    /// The connection could not deliver four bytes.
    ReadFailed,
    /// The reply was written in full.
    Sent,
    /// Writing the reply failed.
    SendFailed,
    /// The loop was cancelled from outside.
    Cancelled,
}

/// What the driver is to do next.
#[derive(Clone, Copy, Debug)]
pub enum Action {
    /// Wait for the next connection.
    Accept,
    /// Read exactly four bytes from the current connection.
    ReadRequest,
    /// Write these bytes to the current connection.
    Send([u8; 4]),
    /// Close the current connection, then wait for the next one.
    CloseAndAccept,
    /// End the loop.
    Stop,
}

/// What is worth reporting about a step.
#[derive(Clone, Copy, Debug, PartialEq, Eq, Structural)]
pub enum Note {
    /// Nothing to report.
    Quiet,
    /// A connection was accepted.
    ConnectionAccepted,
    /// An accept failed; the loop goes on.
    AcceptError,
    /// The request `ping` came in and `pong` goes out.
    PingReceived,
    /// Four bytes other than `ping` came in; no reply is sent.
    UnexpectedPayload,
    /// Writing the reply failed; the connection is dropped.
    SendError,
}

/// The outcome of one step of the loop.
#[derive(Clone, Copy, Debug)]
pub struct Step {
    pub state: ServerState,
    pub action: Action,
    pub note: Note,
}

/// A connection is being serviced in this state.
pub open spec fn in_service(s: ServerState) -> bool {
    s is Reading || s is Replying
}

/// Whether the event can follow the action that led to this state.
/// A cancellation can come at any time.
pub open spec fn fits(s: ServerState, e: Event) -> bool {
    match e {
        Event::Cancelled => true,
        Event::Accepted | Event::AcceptFailed => s is AwaitingConnection,
        Event::Received(_) | Event::ReadFailed => s is Reading,
        Event::Sent | Event::SendFailed => s is Replying,
    }
}

/// The request read in this step is `ping`.
pub open spec fn receives_ping(s: ServerState, e: Event) -> bool {
    &&& s is Reading
    &&& e matches Event::Received(b)
    &&& b@ == ping_bytes()
}

/// The state after the event; an event that does not fit changes nothing.
pub open spec fn next_state(s: ServerState, e: Event) -> ServerState {
    if !fits(s, e) {
        s
    } else {
        match e {
            Event::Cancelled => ServerState::Stopped,
            Event::Accepted => ServerState::Reading,
            Event::AcceptFailed => ServerState::AwaitingConnection,
            Event::Received(_) => if receives_ping(s, e) {
                ServerState::Replying
            } else {
                ServerState::AwaitingConnection
            },
            Event::ReadFailed => ServerState::AwaitingConnection,
            Event::Sent | Event::SendFailed => ServerState::AwaitingConnection,
        }
    }
}

/// The action that a fitting event calls for, with the bytes of a `Send` left
/// to [`sent_in_step`].
pub open spec fn action_agrees(a: Action, s: ServerState, e: Event) -> bool {
    match e {
        Event::Cancelled => a is Stop,
        Event::Accepted => a is ReadRequest,
        Event::AcceptFailed => a is Accept,
        Event::Received(_) => if receives_ping(s, e) {
            a is Send
        } else {
            a is CloseAndAccept
        },
        Event::ReadFailed | Event::Sent | Event::SendFailed => a is CloseAndAccept,
    }
}

/// The bytes that an action writes to the connection.
pub open spec fn sent_by(a: Action) -> Seq<u8> {
    match a {
        Action::Send(b) => b@,
        _ => Seq::empty(),
    }
}

/// The bytes written in the step that takes the event in this state.
pub open spec fn sent_in_step(s: ServerState, e: Event) -> Seq<u8> {
    if receives_ping(s, e) {
        pong_bytes()
    } else {
        Seq::empty()
    }
}

/// What a fitting event is reported as.
pub open spec fn note_for(s: ServerState, e: Event) -> Note {
    match e {
        Event::Accepted => Note::ConnectionAccepted,
        Event::AcceptFailed => Note::AcceptError,
        Event::Received(_) => if receives_ping(s, e) {
            Note::PingReceived
        } else {
            Note::UnexpectedPayload
        },
        Event::SendFailed => Note::SendError,
        _ => Note::Quiet,
    }
}

/// The state reached from `s` after the events `es`, in order.
pub open spec fn state_after(s: ServerState, es: Seq<Event>) -> ServerState
    decreases es.len(),
{
    if es.len() == 0 {
        s
    } else {
        state_after(next_state(s, es[0]), es.drop_first())
    }
}

/// Every event of `es` fits the state in which it comes, starting from `s`.
pub open spec fn valid_run(s: ServerState, es: Seq<Event>) -> bool
    decreases es.len(),
{
    es.len() == 0 || (fits(s, es[0]) && valid_run(next_state(s, es[0]), es.drop_first()))
}

/// The bytes written to the connection in service at `s` while the events
/// `es` come in, up to the moment that the connection is left.
pub open spec fn connection_sent(s: ServerState, es: Seq<Event>) -> Seq<u8>
    decreases es.len(),
{
    if es.len() == 0 || !in_service(s) {
        Seq::empty()
    } else {
        sent_in_step(s, es[0]) + connection_sent(next_state(s, es[0]), es.drop_first())
    }
}

proof fn lemma_replying_sends_nothing(es: Seq<Event>)
    ensures
        connection_sent(ServerState::Replying, es) == Seq::<u8>::empty(),
    decreases es.len(),
{
    if es.len() > 0 {
        let n = next_state(ServerState::Replying, es[0]);
        if n is Replying {
            lemma_replying_sends_nothing(es.drop_first());
        } else {
            assert(!in_service(n));
            assert(connection_sent(n, es.drop_first()) == Seq::<u8>::empty());
        }
        assert(sent_in_step(ServerState::Replying, es[0]) =~= Seq::<u8>::empty());
        assert(connection_sent(ServerState::Replying, es) =~= Seq::<u8>::empty());
    }
}

/// A connection whose four request bytes are `ping` is sent exactly the four
/// bytes `pong` and nothing else, whatever happens afterwards.
pub proof fn lemma_ping_gets_exactly_pong(request: [u8; 4], rest: Seq<Event>)
    requires
        request@ == ping_bytes(),
    ensures
        connection_sent(ServerState::Reading, seq![Event::Received(request)] + rest)
            == pong_bytes(),
{
    let es = seq![Event::Received(request)] + rest;
    assert(es[0] == Event::Received(request));
    assert(es.drop_first() =~= rest);
    assert(next_state(ServerState::Reading, es[0]) == ServerState::Replying);
    lemma_replying_sends_nothing(rest);
    assert(pong_bytes() + Seq::<u8>::empty() =~= pong_bytes());
}

/// A connection whose first four bytes are not `ping` is sent nothing, and the
/// step that reads them closes it.
pub proof fn lemma_other_request_gets_nothing(request: [u8; 4], rest: Seq<Event>)
    requires
        request@ != ping_bytes(),
    ensures
        connection_sent(ServerState::Reading, seq![Event::Received(request)] + rest)
            == Seq::<u8>::empty(),
        next_state(ServerState::Reading, Event::Received(request)) is AwaitingConnection,
        forall|a: Action| action_agrees(a, ServerState::Reading, Event::Received(request))
            ==> a is CloseAndAccept,
{
    let es = seq![Event::Received(request)] + rest;
    assert(es[0] == Event::Received(request));
    assert(es.drop_first() =~= rest);
    assert(!receives_ping(ServerState::Reading, es[0]));
    assert(!in_service(next_state(ServerState::Reading, es[0])));
    assert(connection_sent(next_state(ServerState::Reading, es[0]), rest) == Seq::<u8>::empty());
    assert(Seq::<u8>::empty() + Seq::<u8>::empty() =~= Seq::<u8>::empty());
}

proof fn lemma_valid_run_prefix_fits(s: ServerState, es: Seq<Event>, i: int)
    requires
        valid_run(s, es),
        0 <= i < es.len(),
    ensures
        fits(state_after(s, es.take(i)), es[i]),
    decreases i,
{
    if i > 0 {
        lemma_valid_run_prefix_fits(next_state(s, es[0]), es.drop_first(), i - 1);
        assert(es.take(i).drop_first() =~= es.drop_first().take(i - 1));
        assert(es.take(i)[0] == es[0]);
    } else {
        assert(es.take(0) =~= Seq::<Event>::empty());
    }
}

/// Connections are serviced one at a time: in any run of fitting events, an
/// accept returns a connection only when no connection is in service, and a
/// connection in service is left only by closing it or by cancellation.
pub proof fn lemma_one_connection_at_a_time(s: ServerState, es: Seq<Event>)
    requires
        valid_run(s, es),
    ensures
        forall|i: int| 0 <= i < es.len() && es[i] is Accepted
            ==> !in_service(#[trigger] state_after(s, es.take(i))),
        forall|t: ServerState, e: Event, a: Action|
            in_service(t) && fits(t, e) && !in_service(next_state(t, e))
            && #[trigger] action_agrees(a, t, e) ==> a is CloseAndAccept || a is Stop,
{
    assert forall|i: int| 0 <= i < es.len() && es[i] is Accepted
        implies !in_service(#[trigger] state_after(s, es.take(i))) by {
        lemma_valid_run_prefix_fits(s, es, i);
    }
}

proof fn lemma_stopped_stays(es: Seq<Event>)
    requires
        valid_run(ServerState::Stopped, es),
    ensures
        state_after(ServerState::Stopped, es) is Stopped,
        forall|i: int| 0 <= i < es.len() ==> #[trigger] es[i] is Cancelled,
    decreases es.len(),
{
    if es.len() > 0 {
        lemma_stopped_stays(es.drop_first());
        assert forall|i: int| 0 <= i < es.len() implies #[trigger] es[i] is Cancelled by {
            if i > 0 {
                assert(es[i] == es.drop_first()[i - 1]);
            }
        }
    }
}

/// Cancellation is final: from any state it stops the loop, and no later
/// fitting event accepts, reads or writes anything; each calls for `Stop`.
pub proof fn lemma_cancel_is_final(s: ServerState, later: Seq<Event>)
    requires
        valid_run(ServerState::Stopped, later),
    ensures
        next_state(s, Event::Cancelled) is Stopped,
        state_after(next_state(s, Event::Cancelled), later) is Stopped,
        forall|i: int| 0 <= i < later.len() ==> #[trigger] later[i] is Cancelled,
        forall|t: ServerState, a: Action| #[trigger] action_agrees(a, t, Event::Cancelled) ==> a is Stop,
        forall|t: ServerState| #[trigger] sent_in_step(t, Event::Cancelled) == Seq::<u8>::empty(),
{
    lemma_stopped_stays(later);
}

/// The state in which the loop starts, with its first action.
pub fn start() -> (r: Step)
    ensures
        r.state is AwaitingConnection,
        r.action is Accept,
        r.note == Note::Quiet,
{
    Step { state: ServerState::AwaitingConnection, action: Action::Accept, note: Note::Quiet }
}

/// Decides the next state and action from the current state and the event
/// that the driver reports.
pub fn step(s: ServerState, e: Event) -> (r: Step)
    requires
        fits(s, e),
    ensures
        r.state == next_state(s, e),
        action_agrees(r.action, s, e),
        sent_by(r.action) == sent_in_step(s, e),
        r.note == note_for(s, e),
{
    match e {
        Event::Cancelled => Step { state: ServerState::Stopped, action: Action::Stop, note: Note::Quiet },
        Event::Accepted => Step {
            state: ServerState::Reading,
            action: Action::ReadRequest,
            note: Note::ConnectionAccepted,
        },
        Event::AcceptFailed => Step {
            state: ServerState::AwaitingConnection,
            action: Action::Accept,
            note: Note::AcceptError,
        },
        Event::Received(b) => {
            if is_ping(&b) {
                Step { state: ServerState::Replying, action: Action::Send(pong()), note: Note::PingReceived }
            } else {
                Step {
                    state: ServerState::AwaitingConnection,
                    action: Action::CloseAndAccept,
                    note: Note::UnexpectedPayload,
                }
            }
        },
        Event::ReadFailed | Event::Sent => Step {
            state: ServerState::AwaitingConnection,
            action: Action::CloseAndAccept,
            note: Note::Quiet,
        },
        Event::SendFailed => Step {
            state: ServerState::AwaitingConnection,
            action: Action::CloseAndAccept,
            note: Note::SendError,
        },
    }
}

} // verus!
