//! The ingestion path: what one accepted connection does with each thing
//! that its transport hands over.
//!
//! A connection only ever reads. Each frame that arrives replaces the
//! stored temperature, whatever it holds; a frame that the transport could
//! not decode ends the connection and leaves the stored value alone. The
//! caller waits for the transport, names what came with `classify`, takes
//! exclusive access to the telemetry state, and lets `Connection::on_event`
//! decide.

use vstd::prelude::*;
use crate::telemetry::TelemetryState;

verus! {

/// The kinds of message that carry bytes.
#[derive(Clone, Copy, PartialEq, Eq, Structural, Debug)]
pub enum PayloadKind {
    Binary,
    Ping,
    Pong,
}

/// A message as the transport decoded it.
pub enum Incoming {
    Text(String),
    Binary(Vec<u8>),
    Ping(Vec<u8>),
    Pong(Vec<u8>),
    /// The peer's closing handshake. Its reason is no reading.
    Close,
}

pub enum IncomingView {
    Text(Seq<char>),
    Binary(Seq<u8>),
    Ping(Seq<u8>),
    Pong(Seq<u8>),
    Close,
}

impl View for Incoming {
    type V = IncomingView;

    open spec fn view(&self) -> IncomingView {
        match self {
            Incoming::Text(text) => IncomingView::Text(text@),
            Incoming::Binary(data) => IncomingView::Binary(data@),
            Incoming::Ping(data) => IncomingView::Ping(data@),
            Incoming::Pong(data) => IncomingView::Pong(data@),
            Incoming::Close => IncomingView::Close,
        }
    }
}

/// The text that the transport's message type displays for a message of
/// `kind` with the payload `data`.
pub uninterp spec fn displayed(kind: PayloadKind, data: Seq<u8>) -> Seq<char>;

/// Calls `to_string` on a `tungstenite::Message` of the given kind and
/// payload, which goes through the message's `Display`. The text is a
/// function of the kind and the bytes alone; nothing more is claimed of it
/// here than that.
#[verifier::external_body]
fn display_payload(kind: PayloadKind, data: Vec<u8>) -> (text: String)
    ensures
        text@ == displayed(kind, data@),
{
    let message = match kind {
        PayloadKind::Binary => tokio_tungstenite::tungstenite::Message::Binary(data),
        PayloadKind::Ping => tokio_tungstenite::tungstenite::Message::Ping(data),
        PayloadKind::Pong => tokio_tungstenite::tungstenite::Message::Pong(data),
    };
    message.to_string()
}

/// What a decoded message means to its connection: a text message is a
/// frame as it stands, a message of bytes is a frame of the text that it
/// displays as, and the closing handshake ends the stream.
pub open spec fn event_of(incoming: IncomingView) -> EventView {
    match incoming {
        IncomingView::Text(text) => EventView::Frame(text),
        IncomingView::Binary(data) => EventView::Frame(displayed(PayloadKind::Binary, data)),
        IncomingView::Ping(data) => EventView::Frame(displayed(PayloadKind::Ping, data)),
        IncomingView::Pong(data) => EventView::Frame(displayed(PayloadKind::Pong, data)),
        IncomingView::Close => EventView::End,
    }
}

/// Names what a decoded message means to its connection.
pub fn classify(incoming: Incoming) -> (event: Event)
    ensures
        event@ == event_of(incoming@),
{
    match incoming {
        Incoming::Text(text) => Event::Frame(text),
        Incoming::Binary(data) => Event::Frame(display_payload(PayloadKind::Binary, data)),
        Incoming::Ping(data) => Event::Frame(display_payload(PayloadKind::Ping, data)),
        Incoming::Pong(data) => Event::Frame(display_payload(PayloadKind::Pong, data)),
        Incoming::Close => Event::End,
    }
}

/// What the transport of a connection yielded.
pub enum Event {
    /// One whole frame, as text.
    Frame(String),
    /// A frame that could not be decoded.
    DecodeFailed,
    /// The sender closed the stream, or the stream is over.
    End,
}

pub enum EventView {
    Frame(Seq<char>),
    DecodeFailed,
    End,
}

impl View for Event {
    type V = EventView;

    open spec fn view(&self) -> EventView {
        match self {
            Event::Frame(text) => EventView::Frame(text@),
            Event::DecodeFailed => EventView::DecodeFailed,
            Event::End => EventView::End,
        }
    }
}

#[derive(Clone, Copy, PartialEq, Eq, Structural, Debug)]
pub enum Phase {
    Connected,
    Closed,
}

/// What the caller does after an event. None of these sends anything to
/// the peer.
#[derive(Clone, Copy, PartialEq, Eq, Structural, Debug)]
pub enum Action {
    /// Wait for the next frame.
    AwaitNext,
    /// The stream is over: drop the connection.
    Finish,
    /// The connection failed: report it and drop it. Other connections and
    /// the process go on.
    Abort,
}

/// The phase and the stored temperature after one event.
pub open spec fn step(phase: Phase, temperature: Seq<char>, event: EventView) -> (
    Phase,
    Seq<char>,
) {
    match phase {
        Phase::Closed => (Phase::Closed, temperature),
        Phase::Connected => match event {
            EventView::Frame(text) => (Phase::Connected, text),
            EventView::DecodeFailed => (Phase::Closed, temperature),
            EventView::End => (Phase::Closed, temperature),
        },
    }
}

/// What the caller is told to do after one event.
pub open spec fn action_after(phase: Phase, event: EventView) -> Action {
    match phase {
        Phase::Closed => Action::Finish,
        Phase::Connected => match event {
            EventView::Frame(_) => Action::AwaitNext,
            EventView::DecodeFailed => Action::Abort,
            EventView::End => Action::Finish,
        },
    }
}

/// The phase and the stored temperature after a run of events on one
/// connection, applied in the order received.
pub open spec fn run(phase: Phase, temperature: Seq<char>, events: Seq<EventView>) -> (
    Phase,
    Seq<char>,
)
    decreases events.len(),
{
    if events.len() == 0 {
        (phase, temperature)
    } else {
        let before = run(phase, temperature, events.drop_last());
        step(before.0, before.1, events.last())
    }
}

/// The events of a stream that delivers `frames` and nothing else.
pub open spec fn frame_events(frames: Seq<Seq<char>>) -> Seq<EventView> {
    frames.map_values(|text: Seq<char>| EventView::Frame(text))
}

/// One accepted connection.
pub struct Connection {
    phase: Phase,
}

impl Connection {
    pub closed spec fn phase(&self) -> Phase {
        self.phase
    }

    /// A connection that has just been accepted.
    pub fn accept() -> (connection: Connection)
        ensures
            connection.phase() == Phase::Connected,
    {
        Connection { phase: Phase::Connected }
    }

    /// Whether the connection still takes frames.
    pub fn is_open(&self) -> (open: bool)
        ensures
            open == (self.phase() == Phase::Connected),
    {
        self.phase == Phase::Connected
    }

    /// Applies one event. A frame on an open connection replaces the stored
    /// temperature; anything else leaves it as it is.
    pub fn on_event(&mut self, state: &mut TelemetryState, event: Event) -> (action: Action)
        ensures
            (final(self).phase(), final(state)@) == step(old(self).phase(), old(state)@, event@),
            action == action_after(old(self).phase(), event@),
    {
        if self.phase == Phase::Closed {
            return Action::Finish;
        }
        match event {
            Event::Frame(text) => {
                state.set_temperature(text);
                Action::AwaitNext
            },
            Event::DecodeFailed => {
                self.phase = Phase::Closed;
                Action::Abort
            },
            Event::End => {
                self.phase = Phase::Closed;
                Action::Finish
            },
        }
    }
}

/// Which of two connections a write came from.
#[derive(Clone, Copy, PartialEq, Eq, Structural, Debug)]
pub enum Origin {
    A,
    B,
}

/// One frame applied under exclusive access to the state.
pub struct Write {
    pub origin: Origin,
    pub frame: Seq<char>,
}

/// The frames that one of the two connections sent, in its own order.
pub open spec fn frames_from(schedule: Seq<Write>, origin: Origin) -> Seq<Seq<char>>
    decreases schedule.len(),
{
    if schedule.len() == 0 {
        Seq::empty()
    } else if schedule.last().origin == origin {
        frames_from(schedule.drop_last(), origin).push(schedule.last().frame)
    } else {
        frames_from(schedule.drop_last(), origin)
    }
}

/// The stored temperature after the writes of two open connections, each
/// applied by its connection's `step`, in the order in which they got hold
/// of the state.
pub open spec fn run_interleaved(temperature: Seq<char>, schedule: Seq<Write>) -> Seq<char>
    decreases schedule.len(),
{
    if schedule.len() == 0 {
        temperature
    } else {
        step(
            Phase::Connected,
            run_interleaved(temperature, schedule.drop_last()),
            EventView::Frame(schedule.last().frame),
        ).1
    }
}

/// After any number of frames on one connection the connection is still
/// open. With no frame the stored value is what it was; otherwise it is the
/// last frame, whatever came before.
pub proof fn lemma_last_frame_wins(initial: Seq<char>, frames: Seq<Seq<char>>)
    ensures
        run(Phase::Connected, initial, frame_events(frames)).0 == Phase::Connected,
        frames.len() == 0 ==> run(Phase::Connected, initial, frame_events(frames)).1 == initial,
        frames.len() > 0 ==> run(Phase::Connected, initial, frame_events(frames)).1
            == frames.last(),
    decreases frames.len(),
{
    if frames.len() > 0 {
        lemma_last_frame_wins(initial, frames.drop_last());
        assert(frame_events(frames).drop_last() =~= frame_events(frames.drop_last()));
    }
}

/// A closed connection changes nothing, whatever arrives on it.
pub proof fn lemma_closed_connection_is_inert(temperature: Seq<char>, events: Seq<EventView>)
    ensures
        run(Phase::Closed, temperature, events) == (Phase::Closed, temperature),
    decreases events.len(),
{
    if events.len() > 0 {
        lemma_closed_connection_is_inert(temperature, events.drop_last());
    }
}

/// A frame that fails to decode ends its connection: the frames before it
/// have been applied, and nothing after it is.
pub proof fn lemma_decode_failure_ends_connection(
    initial: Seq<char>,
    before: Seq<Seq<char>>,
    after: Seq<EventView>,
)
    ensures
        run(
            Phase::Connected,
            initial,
            frame_events(before).push(EventView::DecodeFailed) + after,
        ) == (
            Phase::Closed,
            run(Phase::Connected, initial, frame_events(before)).1,
        ),
    decreases after.len(),
{
    let head = frame_events(before).push(EventView::DecodeFailed);
    lemma_last_frame_wins(initial, before);
    if after.len() == 0 {
        assert(head + after =~= head);
        assert(head.drop_last() =~= frame_events(before));
    } else {
        lemma_decode_failure_ends_connection(initial, before, after.drop_last());
        assert((head + after).drop_last() =~= head + after.drop_last());
    }
}

/// With frames from two connections interleaved, the stored value at the
/// end is the frame that got hold of the state last, which is the last
/// frame of the connection it came from.
pub proof fn lemma_interleaved_last_write_wins(initial: Seq<char>, schedule: Seq<Write>)
    requires
        schedule.len() > 0,
    ensures
        run_interleaved(initial, schedule) == schedule.last().frame,
        frames_from(schedule, schedule.last().origin).len() > 0,
        run_interleaved(initial, schedule) == frames_from(
            schedule,
            schedule.last().origin,
        ).last(),
{
}

/// No reader ever sees a partial value: after any number of the writes the
/// stored value is the initial one or one whole frame of the schedule.
pub proof fn lemma_stored_value_is_whole(initial: Seq<char>, schedule: Seq<Write>, done: int)
    requires
        0 <= done <= schedule.len(),
    ensures
        done == 0 ==> run_interleaved(initial, schedule.take(done)) == initial,
        done > 0 ==> run_interleaved(initial, schedule.take(done)) == schedule[done - 1].frame,
{
    if done > 0 {
        assert(schedule.take(done).last() == schedule[done - 1]);
    }
}

/// The frames of a schedule are those of its two connections and no
/// others, each connection's in its own order.
pub proof fn lemma_schedule_splits(schedule: Seq<Write>)
    ensures
        frames_from(schedule, Origin::A).len() + frames_from(schedule, Origin::B).len()
            == schedule.len(),
    decreases schedule.len(),
{
    if schedule.len() > 0 {
        lemma_schedule_splits(schedule.drop_last());
    }
}

} // verus!
