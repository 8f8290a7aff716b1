//! The session loop's decisions.
//!
//! A session is a connection together with the time at which the next
//! reconnection is due. One pass of the loop begins with `tick`, which says
//! whether to serve the connection, to try a reconnection, or to wait. While
//! the connection is served, every message that arrives is dispatched by its
//! event name, and then the pending presence update and the queued commands
//! are framed for writing, in that order.
//!
//! The session turns each change of the connection into an event for the
//! caller's side: a handshake that succeeds resets the backoff and gives
//! `Connected`, and whatever closes the connection schedules the next attempt
//! and gives `Disconnected`.
//!
//! Times are whole milliseconds on a clock that the caller reads.

use vstd::prelude::*;
use crate::backoff::Backoff;
use crate::connection::{
    closed, handshake_step, header_step, is_text, opcode, payload_step, reply_fault, valid_reply,
    ConnectOutcome, Connection, ConnectionView, HeaderStep, JsonReadError, OpenError, OpenPlan,
    Opened, ReadOutcome, ReadStep, State, StreamError, PROTOCOL_VERSION,
};
use crate::frame::spec_encode;
use crate::messages;
use crate::messages::HandshakeReply;
use crate::presence::User;
use crate::shared::SharedState;

verus! {

/// The longest that the loop sleeps between two passes.
pub const MAX_IO_THREAD_TIMEOUT: u64 = 500;

/// The delay before the first reconnection attempt.
pub const MIN_RECONNECT_DELAY: u64 = 500;

/// The longest delay between two reconnection attempts.
pub const MAX_RECONNECT_DELAY: u64 = 60_000;

/// What the session tells the caller's side.
#[derive(Clone, Debug, PartialEq, Eq)]
pub enum Event {
    Connected(Option<User>),
    Disconnected(Option<StreamError>),
    GotError(StreamError),
    GameJoined(String),
    StartedSpectating(String),
    JoinRequested(User),
}

/// When the next reconnection attempt is due, and the backoff that spaces
/// the attempts.
#[derive(Clone, Copy, Debug, PartialEq, Eq)]
pub struct ReconnectionTime {
    pub backoff: Backoff,
    pub next_time: u64,
}

impl ReconnectionTime {
    /// The schedule after the backoff advanced at the time `now` with the
    /// draw `r`: the next attempt is due one delay from now.
    pub open spec fn spec_calc_next(self, now: u64, r: u32) -> ReconnectionTime {
        let backoff = self.backoff.spec_next(r);
        ReconnectionTime { backoff, next_time: now.saturating_add(backoff.current_delay) }
    }

    /// The delay lies between the bounds that a session keeps.
    pub open spec fn wf(self) -> bool {
        &&& self.backoff.wf()
        &&& self.backoff.min == MIN_RECONNECT_DELAY
        &&& self.backoff.max == MAX_RECONNECT_DELAY
    }

    /// This schedule is `before` after its backoff advanced at the time
    /// `now`, by some draw.
    pub open spec fn advanced_from(self, before: ReconnectionTime, now: u64) -> bool {
        exists|r: u32| self == before.spec_calc_next(now, r)
    }

    /// The schedule after a successful handshake: the backoff starts over.
    pub open spec fn spec_reset(self) -> ReconnectionTime {
        ReconnectionTime { backoff: self.backoff.spec_reset(), ..self }
    }

    /// A schedule whose first attempt is due at once.
    pub fn new(now: u64) -> (schedule: Self)
        ensures
            schedule == (ReconnectionTime {
                backoff: Backoff {
                    min: MIN_RECONNECT_DELAY,
                    max: MAX_RECONNECT_DELAY,
                    current_delay: MIN_RECONNECT_DELAY,
                },
                next_time: now,
            }),
            schedule.wf(),
    {
        ReconnectionTime {
            backoff: Backoff::new(MIN_RECONNECT_DELAY, MAX_RECONNECT_DELAY),
            next_time: now,
        }
    }

    /// Whether an attempt is due at the time `now`.
    pub fn is_due(&self, now: u64) -> (due: bool)
        ensures
            due == (now >= self.next_time),
    {
        now >= self.next_time
    }

    /// Advances the backoff with the given draw and sets the next attempt
    /// one delay after `now`, or at the end of the clock's range if that
    /// comes first.
    pub fn calc_next_with(&mut self, now: u64, r: u32)
        ensures
            *final(self) == old(self).spec_calc_next(now, r),
            old(self).wf() ==> final(self).wf(),
    {
        let delay: u64 = self.backoff.next_with(r);
        self.next_time = now.saturating_add(delay);
    }

    /// Advances the backoff with a fresh random draw and sets the next
    /// attempt one delay after `now`: some draw `r` exists for which this
    /// call did what `calc_next_with(now, r)` does.
    pub fn calc_next(&mut self, now: u64)
        ensures
            final(self).advanced_from(*old(self), now),
            old(self).wf() ==> final(self).wf(),
    {
        let delay: u64 = self.backoff.next();
        self.next_time = now.saturating_add(delay);
        proof {
            let r = choose|r: u32| self.backoff == old(self).backoff.spec_next(r);
            assert(*self == old(self).spec_calc_next(now, r));
        }
    }
}

/// What one pass of the loop is to do.
#[derive(Clone, Copy, Debug, PartialEq, Eq)]
pub enum Tick {
    /// Connected: read what has arrived, then write what is pending.
    Service,
    /// Not connected and an attempt is due: try once to open.
    Reconnect,
    /// Not connected and no attempt is due yet.
    Wait,
}

/// What follows a read while the inbound messages are drained.
#[derive(Clone, Debug, PartialEq, Eq)]
pub enum Inbound {
    /// A message arrived that the caller's side is told of: read on.
    Deliver(Event),
    /// A message arrived that nobody is told of: read on.
    Skip,
    /// Nothing more can be read in this pass.
    Done,
}

/// The event that an inbound message stands for, by the event's name.
/// A message of another name, or one whose data lacks what its name
/// promises, stands for none.
pub open spec fn spec_dispatch(message: messages::Event) -> Option<Event> {
    if message.event@ == "ERROR"@ {
        match message.data.error {
            Some(error) => Some(Event::GotError(error)),
            None => None,
        }
    } else if message.event@ == "ACTIVITY_JOIN"@ {
        match message.data.secret {
            Some(secret) => Some(Event::GameJoined(secret)),
            None => None,
        }
    } else if message.event@ == "ACTIVITY_SPECTATE"@ {
        match message.data.secret {
            Some(secret) => Some(Event::StartedSpectating(secret)),
            None => None,
        }
    } else if message.event@ == "ACTIVITY_JOIN_REQUEST"@ {
        match message.data.user {
            Some(user) => Some(Event::JoinRequested(user)),
            None => None,
        }
    } else {
        None
    }
}

/// What draining does with the result of one read.
pub open spec fn spec_inbound(read: Result<Option<messages::Event>, JsonReadError>) -> Inbound {
    match read {
        Ok(Some(message)) => match spec_dispatch(message) {
            Some(event) => Inbound::Deliver(event),
            None => Inbound::Skip,
        },
        _ => Inbound::Done,
    }
}

/// The event that an inbound message stands for.
pub fn dispatch(message: messages::Event) -> (event: Option<Event>)
    ensures
        event == spec_dispatch(message),
{
    if is_text(&message.event, "ERROR") {
        match message.data.error {
            Some(error) => Some(Event::GotError(error)),
            None => None,
        }
    } else if is_text(&message.event, "ACTIVITY_JOIN") {
        match message.data.secret {
            Some(secret) => Some(Event::GameJoined(secret)),
            None => None,
        }
    } else if is_text(&message.event, "ACTIVITY_SPECTATE") {
        match message.data.secret {
            Some(secret) => Some(Event::StartedSpectating(secret)),
            None => None,
        }
    } else if is_text(&message.event, "ACTIVITY_JOIN_REQUEST") {
        match message.data.user {
            Some(user) => Some(Event::JoinRequested(user)),
            None => None,
        }
    } else {
        None
    }
}

/// Takes in the result of one read while the inbound messages are drained.
/// Draining goes on after each message, and ends with the first read that
/// gave none: no data, a payload that was no message, or a fault.
pub fn inbound(read: Result<Option<messages::Event>, JsonReadError>) -> (next: Inbound)
    ensures
        next == spec_inbound(read),
{
    match read {
        Ok(Some(message)) => match dispatch(message) {
            Some(event) => Inbound::Deliver(event),
            None => Inbound::Skip,
        },
        _ => Inbound::Done,
    }
}

/// The byte strings of a list of buffers.
pub open spec fn views(buffers: Seq<Vec<u8>>) -> Seq<Seq<u8>> {
    buffers.map_values(|buffer: Vec<u8>| buffer@)
}

/// The FRAMEs for a list of messages, in order. A message too long for a
/// header to announce has no frame and is left out.
pub open spec fn framed(messages: Seq<Seq<u8>>) -> Seq<Seq<u8>>
    decreases messages.len(),
{
    if messages.len() == 0 {
        Seq::empty()
    } else if messages.last().len() <= u32::MAX {
        framed(messages.drop_last()).push(spec_encode(opcode::FRAME, messages.last()))
    } else {
        framed(messages.drop_last())
    }
}

/// The messages that one pass writes: the presence update, if one is
/// pending, and after it the queued commands in the order they came.
pub open spec fn outbound_messages(pending: Option<Seq<u8>>, queued: Seq<Seq<u8>>) -> Seq<
    Seq<u8>,
> {
    match pending {
        Some(presence) => seq![presence] + queued,
        None => queued,
    }
}

/// The event that a step of a read gives, and what it does to the schedule:
/// a step that ends the read with a fault of the stream gives
/// `Disconnected` with the fault and schedules the next attempt; any other
/// step gives no event and leaves the schedule alone.
pub open spec fn fault_event<T>(
    before: SessionView,
    result: Result<T, JsonReadError>,
    now: u64,
    after: SessionView,
    event: Option<Event>,
) -> bool {
    match result {
        Err(JsonReadError::Stream(Some(error))) => {
            &&& event == Some(Event::Disconnected(Some(error)))
            &&& after.reconnection.advanced_from(before.reconnection, now)
        },
        _ => event is None && after.reconnection == before.reconnection,
    }
}

/// What a session is, as far as its contracts speak of it.
pub struct SessionView {
    pub connection: ConnectionView,
    pub reconnection: ReconnectionTime,
}

impl SessionView {
    /// The session's delay lies between the bounds that a session keeps.
    pub open spec fn wf(self) -> bool {
        self.reconnection.wf()
    }

    /// This session is `before` after its connection was closed at the time
    /// `now`: the backoff advanced once, by some draw, and the next attempt
    /// is due one delay from `now`.
    pub open spec fn disconnected_from(self, before: SessionView, now: u64) -> bool {
        &&& self.connection == closed(before.connection)
        &&& self.reconnection.advanced_from(before.reconnection, now)
    }

    /// This session is `before` after its handshake succeeded.
    pub open spec fn connected_from(self, before: SessionView) -> bool {
        &&& self.connection == (ConnectionView { state: State::Ready, ..before.connection })
        &&& self.reconnection == before.reconnection.spec_reset()
    }
}

/// A connection and the schedule of its reconnections.
pub struct Session {
    connection: Connection,
    reconnection: ReconnectionTime,
}

impl View for Session {
    type V = SessionView;

    closed spec fn view(&self) -> SessionView {
        SessionView { connection: self.connection@, reconnection: self.reconnection }
    }
}

impl Session {
    /// A session for the application `app_id` that is not connected and
    /// whose first attempt to connect is due at once.
    pub fn new(app_id: String, now: u64) -> (session: Self)
        ensures
            session@.connection == (ConnectionView {
                state: State::Disconnected,
                app_id: app_id@,
            }),
            session@.reconnection.backoff == (Backoff {
                min: MIN_RECONNECT_DELAY,
                max: MAX_RECONNECT_DELAY,
                current_delay: MIN_RECONNECT_DELAY,
            }),
            session@.reconnection.next_time == now,
            session@.wf(),
    {
        Session { connection: Connection::new(app_id), reconnection: ReconnectionTime::new(now) }
    }

    /// Whether the peer has accepted the handshake.
    pub fn is_connected(&self) -> (connected: bool)
        ensures
            connected == (self@.connection.state == State::Ready),
    {
        self.connection.is_connected()
    }

    /// Where the connection stands.
    pub fn state(&self) -> (state: State)
        ensures
            state == self@.connection.state,
    {
        self.connection.state()
    }

    /// The schedule of reconnections.
    pub fn reconnection(&self) -> (schedule: ReconnectionTime)
        ensures
            schedule == self@.reconnection,
    {
        self.reconnection
    }

    fn disconnected(&mut self, error: Option<StreamError>, now: u64) -> (event: Event)
        ensures
            event == Event::Disconnected(error),
            final(self)@.connection == old(self)@.connection,
            final(self)@.reconnection.advanced_from(old(self)@.reconnection, now),
            old(self)@.wf() ==> final(self)@.wf(),
    {
        self.reconnection.calc_next(now);
        Event::Disconnected(error)
    }

    /// Begins one pass of the loop at the time `now`. While connected, the
    /// pass serves the connection. Otherwise, once the next attempt is due,
    /// the backoff advances first, so that an attempt that stalls is not
    /// repeated at once, and the pass tries to reconnect.
    pub fn tick(&mut self, now: u64) -> (tick: Tick)
        ensures
            old(self)@.wf() ==> final(self)@.wf(),
            final(self)@.connection == old(self)@.connection,
            old(self)@.connection.state == State::Ready ==> tick == Tick::Service && final(self)@
                == old(self)@,
            old(self)@.connection.state != State::Ready && now < old(self)@.reconnection.next_time
                ==> tick == Tick::Wait && final(self)@ == old(self)@,
            old(self)@.connection.state != State::Ready && now >= old(
                self,
            )@.reconnection.next_time ==> tick == Tick::Reconnect
                && final(self)@.reconnection.advanced_from(old(self)@.reconnection, now),
    {
        if self.connection.is_connected() {
            Tick::Service
        } else if self.reconnection.is_due(now) {
            self.reconnection.calc_next(now);
            Tick::Reconnect
        } else {
            Tick::Wait
        }
    }

    /// What opening has to do now.
    pub fn open(&self) -> (plan: OpenPlan<'_>)
        ensures
            match self@.connection.state {
                State::Ready => plan == OpenPlan::Ready,
                State::AwaitingHandshake => plan == OpenPlan::AwaitReply,
                State::Disconnected => plan matches OpenPlan::Connect(handshake)
                    && handshake.version == PROTOCOL_VERSION
                    && handshake.app_id@ == self@.connection.app_id,
            },
    {
        self.connection.open()
    }

    /// Takes in how acquiring a stream and sending the handshake ended. A
    /// failure here schedules nothing new: the backoff advanced when the
    /// attempt began.
    pub fn handshake_sent(&mut self, outcome: ConnectOutcome) -> (result: Result<(), OpenError>)
        ensures
            handshake_step(old(self)@.connection, outcome, final(self)@.connection, result),
            final(self)@.reconnection == old(self)@.reconnection,
    {
        self.connection.handshake_sent(outcome)
    }

    /// Takes in what the read of the handshake reply gave. A valid reply
    /// makes the session connected, resets the backoff to its minimum and
    /// gives `Connected` with the user that the reply held. Any other reply
    /// is an invalid handshake and changes nothing.
    pub fn finish_open(&mut self, read: Result<Option<HandshakeReply>, JsonReadError>) -> (result:
        Result<Option<Event>, OpenError>)
        ensures
            old(self)@.wf() ==> final(self)@.wf(),
            match old(self)@.connection.state {
                State::Ready => result == Ok::<Option<Event>, OpenError>(None) && final(self)@
                    == old(self)@,
                State::Disconnected => result == Err::<Option<Event>, OpenError>(
                    OpenError::HandshakeReceive(reply_fault(read)),
                ) && final(self)@ == old(self)@,
                State::AwaitingHandshake => match read {
                    Ok(Some(reply)) => if valid_reply(reply) {
                        &&& result == Ok::<Option<Event>, OpenError>(
                            Some(Event::Connected(reply.data.user)),
                        )
                        &&& final(self)@.connected_from(old(self)@)
                    } else {
                        &&& result == Err::<Option<Event>, OpenError>(
                            OpenError::InvalidHandshake(reply),
                        )
                        &&& final(self)@ == old(self)@
                    },
                    Ok(None) => result == Ok::<Option<Event>, OpenError>(None) && final(self)@
                        == old(self)@,
                    Err(e) => result == Err::<Option<Event>, OpenError>(
                        OpenError::HandshakeReceive(e),
                    ) && final(self)@ == old(self)@,
                },
            },
    {
        match self.connection.finish_open(read) {
            Ok(Opened::Connected(user)) => {
                self.reconnection.backoff.reset();
                Ok(Some(Event::Connected(user)))
            },
            Ok(_) => Ok(None),
            Err(e) => Err(e),
        }
    }

    /// Takes in how the read of a frame header ended, at the time `now`. A
    /// read that found no data changes nothing and gives no event. A stream
    /// that failed gives `Disconnected` with the error, once.
    pub fn header_read(&mut self, outcome: ReadOutcome, now: u64) -> (result: (
        Result<HeaderStep, JsonReadError>,
        Option<Event>,
    ))
        ensures
            header_step(old(self)@.connection, outcome, final(self)@.connection, result.0),
            fault_event(old(self)@, result.0, now, final(self)@, result.1),
            old(self)@.wf() ==> final(self)@.wf(),
    {
        let step = self.connection.header_read(outcome);
        let event = match &step {
            Err(JsonReadError::Stream(Some(error))) => Some(
                self.disconnected(Some(error.clone()), now),
            ),
            _ => None,
        };
        (step, event)
    }

    /// Takes in how the read of a frame's payload ended, at the time `now`.
    /// A frame that was cut short or is of no known kind gives
    /// `Disconnected` with the error, once. No other frame gives an event
    /// here: a PING is answered and a PONG is passed over in silence.
    pub fn payload_read(&mut self, opcode: u32, length: u32, outcome: ReadOutcome, now: u64) -> (result:
        (Result<ReadStep, JsonReadError>, Option<Event>))
        ensures
            payload_step(
                old(self)@.connection,
                opcode,
                length,
                outcome,
                final(self)@.connection,
                result.0,
            ),
            fault_event(old(self)@, result.0, now, final(self)@, result.1),
            old(self)@.wf() ==> final(self)@.wf(),
    {
        let step = self.connection.payload_read(opcode, length, outcome);
        let event = match &step {
            Err(JsonReadError::Stream(Some(error))) => Some(
                self.disconnected(Some(error.clone()), now),
            ),
            _ => None,
        };
        (step, event)
    }

    /// Closes the session after a CLOSE frame, at the time `now`, with the
    /// error that the frame held, if it held one. The read ends with that
    /// error, and `Disconnected` carries the same.
    pub fn peer_closed(&mut self, error: Option<StreamError>, now: u64) -> (result: (
        JsonReadError,
        Event,
    ))
        ensures
            result.0 == JsonReadError::Stream(error),
            result.1 == Event::Disconnected(error),
            final(self)@.disconnected_from(old(self)@, now),
            old(self)@.wf() ==> final(self)@.wf(),
    {
        let copy = match &error {
            Some(e) => Some(e.clone()),
            None => None,
        };
        let fault = self.connection.peer_closed(error);
        let event = self.disconnected(copy, now);
        (fault, event)
    }

    /// Takes in how the write of a PONG ended, at the time `now`. A failed
    /// write closes the session and gives `Disconnected` with no error.
    pub fn pong_written(&mut self, outcome: Result<(), std::io::Error>, now: u64) -> (result:
        Option<(JsonReadError, Event)>)
        ensures
            old(self)@.wf() ==> final(self)@.wf(),
            match outcome {
                Ok(_) => result is None && final(self)@ == old(self)@,
                Err(e) => {
                    &&& result == Some((JsonReadError::Io(e), Event::Disconnected(None)))
                    &&& final(self)@.disconnected_from(old(self)@, now)
                },
            },
    {
        match self.connection.pong_written(outcome) {
            None => None,
            Some(fault) => {
                let event = self.disconnected(None, now);
                Some((fault, event))
            },
        }
    }

    /// The frames that this pass writes, in order: the presence update, if
    /// one is pending, then the queued commands. The pending mark is cleared
    /// and the queue is used up whether or not a stream is held; without
    /// one nothing is written, and nothing is kept for later.
    pub fn outbound(&self, shared: &mut SharedState, queued: Vec<Vec<u8>>) -> (frames: Vec<
        Vec<u8>,
    >)
        ensures
            final(shared)@ == old(shared)@.taken(),
            self@.connection.state != State::Disconnected ==> views(frames@) == framed(
                outbound_messages(old(shared)@.pending(), views(queued@)),
            ),
            self@.connection.state == State::Disconnected ==> frames@.len() == 0,
    {
        let ghost pending = old(shared)@.pending();
        let ghost head: Seq<Seq<u8>> = match pending {
            Some(presence) => seq![presence],
            None => Seq::empty(),
        };
        let ghost connected = self@.connection.state != State::Disconnected;
        let mut frames: Vec<Vec<u8>> = Vec::new();
        proof {
            reveal_with_fuel(framed, 2);
        }
        match shared.take_presence() {
            Some(presence) => {
                assert(head.drop_last() =~= Seq::<Seq<u8>>::empty());
                if presence.len() <= u32::MAX as usize {
                    match self.connection.write_raw(presence.as_slice()) {
                        Ok(frame) => {
                            frames.push(frame);
                        },
                        Err(_) => {},
                    }
                }
            },
            None => {},
        }
        assert(connected ==> views(frames@) =~= framed(head));
        let mut i: usize = 0;
        while i < queued.len()
            invariant
                i <= queued@.len(),
                connected == (self@.connection.state != State::Disconnected),
                connected ==> views(frames@) == framed(head + views(queued@).subrange(0, i as int)),
                !connected ==> frames@.len() == 0,
            decreases queued@.len() - i,
        {
            let ghost before = head + views(queued@).subrange(0, i as int);
            let ghost after = head + views(queued@).subrange(0, i + 1);
            let ghost written = views(frames@);
            assert(after.drop_last() =~= before);
            assert(after.last() == queued@[i as int]@);
            if queued[i].len() <= u32::MAX as usize {
                match self.connection.write_raw(queued[i].as_slice()) {
                    Ok(frame) => {
                        frames.push(frame);
                        assert(views(frames@) =~= written.push(frame@));
                    },
                    Err(_) => {},
                }
            }
            assert(connected ==> views(frames@) =~= framed(after));
            i += 1;
        }
        assert(views(queued@).subrange(0, i as int) =~= views(queued@));
        assert(head + views(queued@) =~= outbound_messages(pending, views(queued@)));
        frames
    }
}

/// The schedule keeps its bounds: a step of the backoff, by whatever draw,
/// leaves the delay between the least and the greatest delay of a session,
/// and sets the next attempt no sooner than the least delay from `now` and
/// no later than the greatest.
pub proof fn lemma_next_attempt_is_spaced(before: ReconnectionTime, now: u64, after: ReconnectionTime)
    requires
        before.wf(),
        after.advanced_from(before, now),
    ensures
        after.wf(),
        before.backoff.current_delay <= after.backoff.current_delay,
        after.next_time == now.saturating_add(after.backoff.current_delay),
        now + MAX_RECONNECT_DELAY <= u64::MAX ==> now + MIN_RECONNECT_DELAY <= after.next_time
            <= now + MAX_RECONNECT_DELAY,
{
}

/// A successful handshake brings the delay back to the least delay, so that
/// the attempt after the next loss of the connection is spaced as the first
/// one was.
pub proof fn lemma_connect_resets_the_delay(before: ReconnectionTime)
    requires
        before.wf(),
    ensures
        before.spec_reset().wf(),
        before.spec_reset().backoff.current_delay == MIN_RECONNECT_DELAY,
        before.spec_reset().next_time == before.next_time,
{
}

/// Two presence updates with no pass between them give one frame, which
/// holds the second payload, and the pass after it writes nothing for them.
pub proof fn lemma_coalesced_updates_give_one_frame(
    state: crate::shared::SharedView,
    first: Seq<u8>,
    second: Seq<u8>,
)
    requires
        second.len() <= u32::MAX,
    ensures
        framed(outbound_messages(state.updated(first).updated(second).pending(), Seq::empty()))
            == seq![spec_encode(opcode::FRAME, second)],
        framed(
            outbound_messages(
                state.updated(first).updated(second).taken().pending(),
                Seq::empty(),
            ),
        ) == Seq::<Seq<u8>>::empty(),
{
    reveal_with_fuel(framed, 2);
    let messages = outbound_messages(
        state.updated(first).updated(second).pending(),
        Seq::empty(),
    );
    assert(messages =~= seq![second]);
    assert(messages.drop_last() =~= Seq::<Seq<u8>>::empty());
    assert(framed(messages) =~= seq![spec_encode(opcode::FRAME, second)]);
}

/// The frames of a pass keep the order of the messages: the frames for a
/// list that ends with one more message are the frames for the list, and
/// after them the frame of that message.
pub proof fn lemma_framed_keeps_order(messages: Seq<Seq<u8>>, last: Seq<u8>)
    requires
        last.len() <= u32::MAX,
    ensures
        framed(messages.push(last)) == framed(messages).push(spec_encode(opcode::FRAME, last)),
{
    assert(messages.push(last).drop_last() =~= messages);
}

} // verus!
