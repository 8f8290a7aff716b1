use discord_rpc::connection::{
    opcode, ConnectOutcome, HeaderStep, JsonReadError, OpenError, OpenPlan, ReadOutcome, ReadStep,
    State, StreamError,
};
use discord_rpc::frame::encode_frame;
use discord_rpc::messages::{self, EventData, HandshakeReply, HandshakeReplyData};
use discord_rpc::rpc::EventHandlers;
use discord_rpc::session::{
    dispatch, inbound, Event, Inbound, ReconnectionTime, Session, Tick, MAX_IO_THREAD_TIMEOUT,
    MAX_RECONNECT_DELAY, MIN_RECONNECT_DELAY,
};
use discord_rpc::shared::SharedState;
use discord_rpc::User;
use std::io;

fn user() -> User {
    User {
        id: "42".to_string(),
        username: "nelly".to_string(),
        discriminator: "0001".to_string(),
        avatar: None,
    }
}

fn no_data() -> EventData {
    EventData { error: None, secret: None, user: None }
}

fn message(event: &str, data: EventData) -> messages::Event {
    messages::Event { event: event.to_string(), data }
}

fn text(value: &serde_json::Value, key: &str) -> String {
    value.get(key).and_then(|v| v.as_str()).unwrap().to_string()
}

fn parse_reply(payload: &[u8]) -> HandshakeReply {
    let value: serde_json::Value = serde_json::from_slice(payload).unwrap();
    let user = value.get("data").and_then(|d| d.get("user")).filter(|u| !u.is_null());
    HandshakeReply {
        command: text(&value, "cmd"),
        event: text(&value, "evt"),
        data: HandshakeReplyData {
            user: user.map(|u| User {
                id: text(u, "id"),
                username: text(u, "username"),
                discriminator: text(u, "discriminator"),
                avatar: u.get("avatar").and_then(|a| a.as_str()).map(|a| a.to_string()),
            }),
        },
    }
}

fn parse_error(payload: &[u8]) -> Option<StreamError> {
    let value: serde_json::Value = serde_json::from_slice(payload).ok()?;
    Some(StreamError {
        message: value.get("message")?.as_str()?.to_string(),
        code: value.get("code")?.as_u64()? as u8,
    })
}

/// Feeds one whole frame to the session, as a stream that holds exactly
/// that frame would.
fn feed(
    session: &mut Session,
    frame: &[u8],
    now: u64,
) -> (Result<ReadStep, JsonReadError>, Option<Event>) {
    let (step, event) = session.header_read(ReadOutcome::Filled(frame[..8].to_vec()), now);
    assert!(event.is_none());
    match step {
        Ok(HeaderStep::Payload { opcode, length }) => {
            assert_eq!(length as usize, frame.len() - 8);
            session.payload_read(opcode, length, ReadOutcome::Filled(frame[8..].to_vec()), now)
        }
        other => panic!("unexpected {:?}", other),
    }
}

fn fault<T: std::fmt::Debug>(result: Result<T, JsonReadError>) -> StreamError {
    match result {
        Err(JsonReadError::Stream(Some(error))) => error,
        other => panic!("unexpected {:?}", other),
    }
}

fn awaiting_session() -> Session {
    let mut session = Session::new("1234".to_string(), 0);
    assert_eq!(session.tick(0), Tick::Reconnect);
    assert!(matches!(session.open(), OpenPlan::Connect(_)));
    session.handshake_sent(ConnectOutcome::Sent).unwrap();
    session
}

fn connected_session() -> Session {
    let mut session = awaiting_session();
    let ready = b"{\"cmd\":\"DISPATCH\",\"evt\":\"READY\",\"data\":{\"user\":null}}";
    let (step, _) = feed(&mut session, &encode_frame(opcode::FRAME, ready), 10);
    match step {
        Ok(ReadStep::Message(payload)) => {
            session.finish_open(Ok(Some(parse_reply(&payload)))).unwrap();
        }
        other => panic!("unexpected {:?}", other),
    }
    assert!(session.is_connected());
    session
}

#[test]
fn loop_constants() {
    assert_eq!(MAX_IO_THREAD_TIMEOUT, 500);
    assert_eq!(MIN_RECONNECT_DELAY, 500);
    assert_eq!(MAX_RECONNECT_DELAY, 60_000);
}

#[test]
fn reconnection_time_starts_due() {
    let schedule = ReconnectionTime::new(77);
    assert_eq!(schedule.next_time, 77);
    assert_eq!(schedule.backoff.min, 500);
    assert_eq!(schedule.backoff.max, 60_000);
    assert_eq!(schedule.backoff.current_delay, 500);
    assert!(schedule.is_due(77));
    assert!(schedule.is_due(78));
    assert!(!schedule.is_due(76));
}

#[test]
fn calc_next_with_sets_the_next_attempt_one_delay_ahead() {
    let mut schedule = ReconnectionTime::new(0);
    schedule.calc_next_with(1_000, 0x8000_0000);
    assert_eq!(schedule.backoff.current_delay, 1_000);
    assert_eq!(schedule.next_time, 2_000);
    schedule.calc_next_with(5_000, 0);
    assert_eq!(schedule.backoff.current_delay, 1_000);
    assert_eq!(schedule.next_time, 6_000);
    assert!(!schedule.is_due(5_999));
    assert!(schedule.is_due(6_000));
}

#[test]
fn calc_next_with_saturates_at_the_end_of_the_clock() {
    let mut schedule = ReconnectionTime::new(0);
    schedule.calc_next_with(u64::MAX - 10, 0);
    assert_eq!(schedule.next_time, u64::MAX);
}

#[test]
fn calc_next_draws_a_delay_within_the_bounds() {
    let mut schedule = ReconnectionTime::new(0);
    let mut previous = 500;
    for step in 0..50u64 {
        let now = step * 1_000;
        schedule.calc_next(now);
        let delay = schedule.backoff.current_delay;
        assert!(delay >= previous && delay <= 60_000);
        assert_eq!(schedule.next_time, now + delay);
        previous = delay;
    }
}

#[test]
fn new_session_reconnects_at_once() {
    let mut session = Session::new("1234".to_string(), 5);
    assert_eq!(session.state(), State::Disconnected);
    assert!(!session.is_connected());
    assert_eq!(session.reconnection(), ReconnectionTime::new(5));
    assert_eq!(session.tick(5), Tick::Reconnect);
    let schedule = session.reconnection();
    assert!(schedule.backoff.current_delay >= 500 && schedule.backoff.current_delay < 1_500);
    assert_eq!(schedule.next_time, 5 + schedule.backoff.current_delay);
}

#[test]
fn tick_waits_until_the_next_attempt_is_due() {
    let mut session = Session::new("1234".to_string(), 0);
    assert_eq!(session.tick(0), Tick::Reconnect);
    let schedule = session.reconnection();
    assert_eq!(session.tick(schedule.next_time - 1), Tick::Wait);
    assert_eq!(session.reconnection(), schedule);
    assert_eq!(session.tick(schedule.next_time), Tick::Reconnect);
    let later = session.reconnection();
    assert!(later.backoff.current_delay >= schedule.backoff.current_delay);
    assert_eq!(later.next_time, schedule.next_time + later.backoff.current_delay);
}

#[test]
fn tick_reconnects_while_the_handshake_is_pending() {
    let mut session = awaiting_session();
    let due = session.reconnection().next_time;
    assert_eq!(session.tick(due - 1), Tick::Wait);
    assert_eq!(session.tick(due), Tick::Reconnect);
    assert_eq!(session.open(), OpenPlan::AwaitReply);
    assert_eq!(session.state(), State::AwaitingHandshake);
}

#[test]
fn tick_serves_a_connected_session() {
    let mut session = connected_session();
    let schedule = session.reconnection();
    assert_eq!(session.tick(0), Tick::Service);
    assert_eq!(session.tick(u64::MAX), Tick::Service);
    assert_eq!(session.reconnection(), schedule);
    assert!(session.is_connected());
}

#[test]
fn failed_connect_keeps_the_schedule() {
    let mut session = Session::new("1234".to_string(), 0);
    assert_eq!(session.tick(0), Tick::Reconnect);
    let schedule = session.reconnection();
    let fault = io::Error::new(io::ErrorKind::AddrInUse, "no free path");
    let result = session.handshake_sent(ConnectOutcome::NoStream(fault));
    assert!(matches!(result, Err(OpenError::Stream(_))));
    assert_eq!(session.state(), State::Disconnected);
    assert_eq!(session.reconnection(), schedule);
}

#[test]
fn ready_with_no_user_connects_and_resets_the_backoff() {
    let mut session = Session::new("1234".to_string(), 0);
    assert_eq!(session.tick(0), Tick::Reconnect);
    session.handshake_sent(ConnectOutcome::Sent).unwrap();
    let due = session.reconnection().next_time;
    assert_eq!(session.tick(due), Tick::Reconnect);
    assert_eq!(session.tick(due + 60_000), Tick::Reconnect);
    assert_eq!(session.open(), OpenPlan::AwaitReply);

    let ready = b"{\"cmd\":\"DISPATCH\",\"evt\":\"READY\",\"data\":{\"user\":null}}";
    let (step, event) = feed(&mut session, &encode_frame(opcode::FRAME, ready), due + 60_000);
    assert!(event.is_none());
    let payload = match step {
        Ok(ReadStep::Message(payload)) => payload,
        other => panic!("unexpected {:?}", other),
    };
    let result = session.finish_open(Ok(Some(parse_reply(&payload))));
    match result {
        Ok(event) => assert_eq!(event, Some(Event::Connected(None))),
        Err(e) => panic!("unexpected {:?}", e),
    }
    assert!(session.is_connected());
    assert_eq!(session.state(), State::Ready);
    assert_eq!(session.reconnection().backoff.current_delay, MIN_RECONNECT_DELAY);
    assert_eq!(session.open(), OpenPlan::Ready);

    let handlers = EventHandlers { connect: true, ..EventHandlers::default() };
    let delivered = handlers.check_events(vec![Event::Connected(None)]);
    assert_eq!(delivered, vec![Event::Connected(None)]);
}

#[test]
fn ready_with_a_user_hands_the_user_on() {
    let mut session = awaiting_session();
    let ready = b"{\"cmd\":\"DISPATCH\",\"evt\":\"READY\",\"data\":{\"user\":{\"id\":\"42\",\
        \"username\":\"nelly\",\"discriminator\":\"0001\",\"avatar\":null}}}";
    let (step, _) = feed(&mut session, &encode_frame(opcode::FRAME, ready), 3);
    let payload = match step {
        Ok(ReadStep::Message(payload)) => payload,
        other => panic!("unexpected {:?}", other),
    };
    let event = session.finish_open(Ok(Some(parse_reply(&payload)))).unwrap();
    assert_eq!(event, Some(Event::Connected(Some(user()))));
    assert!(session.is_connected());
}

#[test]
fn invalid_handshake_leaves_the_session_waiting() {
    let mut session = awaiting_session();
    let schedule = session.reconnection();
    let reply = HandshakeReply {
        command: "DISPATCH".to_string(),
        event: "ERROR".to_string(),
        data: HandshakeReplyData { user: None },
    };
    match session.finish_open(Ok(Some(reply.clone()))) {
        Err(OpenError::InvalidHandshake(returned)) => assert_eq!(returned, reply),
        other => panic!("unexpected {:?}", other),
    }
    assert!(!session.is_connected());
    assert_eq!(session.state(), State::AwaitingHandshake);
    assert_eq!(session.reconnection(), schedule);
}

#[test]
fn reply_outside_a_handshake_gives_no_event() {
    let ready = HandshakeReply {
        command: "DISPATCH".to_string(),
        event: "READY".to_string(),
        data: HandshakeReplyData { user: None },
    };
    let mut closed = Session::new("1234".to_string(), 0);
    let schedule = closed.reconnection();
    let result = closed.finish_open(Ok(Some(ready.clone())));
    assert!(matches!(result, Err(OpenError::HandshakeReceive(JsonReadError::Disconnected))));
    assert_eq!(closed.state(), State::Disconnected);
    assert_eq!(closed.reconnection(), schedule);

    let mut connected = connected_session();
    let schedule = connected.reconnection();
    assert!(matches!(connected.finish_open(Ok(Some(ready))), Ok(None)));
    assert!(connected.is_connected());
    assert_eq!(connected.reconnection(), schedule);
    assert!(connected.handshake_sent(ConnectOutcome::Sent).is_ok());
    assert!(connected.is_connected());
}

#[test]
fn pending_and_failed_reply_reads_give_no_event() {
    let mut session = awaiting_session();
    assert!(matches!(session.finish_open(Ok(None)), Ok(None)));
    let fault = serde_json::from_str::<u32>("x").unwrap_err();
    let result = session.finish_open(Err(JsonReadError::Json(fault)));
    assert!(matches!(result, Err(OpenError::HandshakeReceive(JsonReadError::Json(_)))));
    assert_eq!(session.state(), State::AwaitingHandshake);
}

#[test]
fn close_frame_disconnects_with_the_peers_error() {
    let mut session = connected_session();
    assert_eq!(session.reconnection().backoff.current_delay, 500);
    let close = b"{\"message\":\"bye\",\"code\":1}";
    let (step, event) = feed(&mut session, &encode_frame(opcode::CLOSE, close), 9_000);
    assert!(event.is_none());
    let payload = match step {
        Ok(ReadStep::PeerClosed(payload)) => payload,
        other => panic!("unexpected {:?}", other),
    };
    let error = parse_error(&payload);
    assert_eq!(error, Some(StreamError { message: "bye".to_string(), code: 1 }));
    let (fault, event) = session.peer_closed(error.clone(), 9_000);
    match fault {
        JsonReadError::Stream(returned) => assert_eq!(returned, error),
        other => panic!("unexpected {:?}", other),
    }
    assert_eq!(
        event,
        Event::Disconnected(Some(StreamError { message: "bye".to_string(), code: 1 }))
    );
    assert_eq!(session.state(), State::Disconnected);
    assert!(!session.is_connected());
    let schedule = session.reconnection();
    assert!(schedule.backoff.current_delay >= 500 && schedule.backoff.current_delay < 1_500);
    assert_eq!(schedule.next_time, 9_000 + schedule.backoff.current_delay);
    let (next, none) = session.header_read(ReadOutcome::WouldBlock, 9_001);
    assert!(matches!(next, Err(JsonReadError::Disconnected)));
    assert!(none.is_none());
    assert_eq!(session.reconnection(), schedule);

    let handlers = EventHandlers { disconnect: true, ..EventHandlers::default() };
    assert_eq!(handlers.check_events(vec![event.clone()]), vec![event]);
}

#[test]
fn close_frame_without_an_error_disconnects_with_none() {
    let mut session = connected_session();
    let (step, _) = feed(&mut session, &encode_frame(opcode::CLOSE, b"???"), 1);
    let payload = match step {
        Ok(ReadStep::PeerClosed(payload)) => payload,
        other => panic!("unexpected {:?}", other),
    };
    assert_eq!(parse_error(&payload), None);
    let (fault, event) = session.peer_closed(None, 1);
    assert!(matches!(fault, JsonReadError::Stream(None)));
    assert_eq!(event, Event::Disconnected(None));
    assert_eq!(session.state(), State::Disconnected);
}

#[test]
fn ping_writes_one_pong_and_surfaces_no_event() {
    let mut session = connected_session();
    let schedule = session.reconnection();
    let mut written: Vec<Vec<u8>> = Vec::new();
    let mut events: Vec<Event> = Vec::new();

    let (step, event) = feed(&mut session, &encode_frame(opcode::PING, &[]), 20);
    events.extend(event);
    match step {
        Ok(ReadStep::Pong(frame)) => {
            written.push(frame);
            assert!(session.pong_written(Ok(()), 20).is_none());
        }
        other => panic!("unexpected {:?}", other),
    }
    let (step, event) = session.header_read(ReadOutcome::WouldBlock, 21);
    events.extend(event);
    assert_eq!(step.unwrap(), HeaderStep::NoData);
    assert_eq!(inbound(Ok(None)), Inbound::Done);

    assert_eq!(written, vec![vec![4, 0, 0, 0, 0, 0, 0, 0]]);
    assert!(events.is_empty());
    assert!(session.is_connected());
    assert_eq!(session.reconnection(), schedule);
}

#[test]
fn failed_pong_disconnects_without_an_error() {
    let mut session = connected_session();
    let (step, _) = feed(&mut session, &encode_frame(opcode::PING, &[]), 20);
    assert!(matches!(step, Ok(ReadStep::Pong(_))));
    let fault = io::Error::new(io::ErrorKind::BrokenPipe, "gone");
    match session.pong_written(Err(fault), 20) {
        Some((JsonReadError::Io(e), event)) => {
            assert_eq!(e.kind(), io::ErrorKind::BrokenPipe);
            assert_eq!(event, Event::Disconnected(None));
        }
        other => panic!("unexpected {:?}", other),
    }
    assert_eq!(session.state(), State::Disconnected);
    assert_eq!(session.reconnection().next_time, 20 + session.reconnection().backoff.current_delay);
}

#[test]
fn pong_is_ignored() {
    let mut session = connected_session();
    let (step, event) = feed(&mut session, &encode_frame(opcode::PONG, &[]), 20);
    assert_eq!(step.unwrap(), ReadStep::Again);
    assert!(event.is_none());
    assert!(session.is_connected());
}

#[test]
fn reads_without_a_stream_end_disconnected() {
    let mut session = Session::new("1234".to_string(), 0);
    let schedule = session.reconnection();
    let (header, event) = session.header_read(ReadOutcome::Failed, 5);
    assert!(matches!(header, Err(JsonReadError::Disconnected)));
    assert!(event.is_none());
    let (payload, event) = session.payload_read(1, 2, ReadOutcome::Failed, 5);
    assert!(matches!(payload, Err(JsonReadError::Disconnected)));
    assert!(event.is_none());
    assert_eq!(session.reconnection(), schedule);
    assert_eq!(session.state(), State::Disconnected);
}

#[test]
fn no_data_leaves_the_session_alone() {
    let mut session = connected_session();
    let schedule = session.reconnection();
    let (step, event) = session.header_read(ReadOutcome::WouldBlock, 50);
    assert_eq!(step.unwrap(), HeaderStep::NoData);
    assert!(event.is_none());
    assert!(session.is_connected());
    assert_eq!(session.reconnection(), schedule);
}

#[test]
fn failed_header_read_disconnects_with_pipe_closed() {
    let mut session = connected_session();
    let (step, event) = session.header_read(ReadOutcome::Failed, 700);
    let error = StreamError { message: "Pipe closed".to_string(), code: 1 };
    assert_eq!(fault(step), error);
    assert_eq!(event, Some(Event::Disconnected(Some(error))));
    assert_eq!(session.state(), State::Disconnected);
    let schedule = session.reconnection();
    assert_eq!(schedule.next_time, 700 + schedule.backoff.current_delay);
    assert_eq!(session.tick(700), Tick::Wait);
    assert_eq!(session.tick(schedule.next_time), Tick::Reconnect);
}

#[test]
fn short_payload_disconnects_with_read_corrupt() {
    let mut session = connected_session();
    let (header, _) = session.header_read(ReadOutcome::WouldBlock, 1);
    assert_eq!(header.unwrap(), HeaderStep::NoData);
    assert!(session.is_connected());
    let (header, _) =
        session.header_read(ReadOutcome::Filled(vec![1, 0, 0, 0, 9, 0, 0, 0]), 2);
    assert_eq!(header.unwrap(), HeaderStep::Payload { opcode: 1, length: 9 });
    let (step, event) = session.payload_read(1, 9, ReadOutcome::Failed, 2);
    let error = StreamError { message: "Partial data in frame".to_string(), code: 2 };
    assert_eq!(fault(step), error);
    assert_eq!(event, Some(Event::Disconnected(Some(error))));
    assert_eq!(session.state(), State::Disconnected);
}

#[test]
fn bad_frame_disconnects_with_read_corrupt() {
    let mut session = connected_session();
    let (step, event) = feed(&mut session, &encode_frame(9, b"x"), 2);
    let error = StreamError { message: "Bad frame".to_string(), code: 2 };
    assert_eq!(fault(step), error);
    assert_eq!(event, Some(Event::Disconnected(Some(error))));
    assert!(!session.is_connected());
}

#[test]
fn dispatch_error_event() {
    let error = StreamError { message: "oops".to_string(), code: 7 };
    let data = EventData { error: Some(error.clone()), ..no_data() };
    assert_eq!(dispatch(message("ERROR", data)), Some(Event::GotError(error)));
    assert_eq!(dispatch(message("ERROR", no_data())), None);
}

#[test]
fn dispatch_join_and_spectate_take_the_secret() {
    let data = EventData { secret: Some("s3cret".to_string()), ..no_data() };
    assert_eq!(
        dispatch(message("ACTIVITY_JOIN", data.clone())),
        Some(Event::GameJoined("s3cret".to_string()))
    );
    assert_eq!(
        dispatch(message("ACTIVITY_SPECTATE", data)),
        Some(Event::StartedSpectating("s3cret".to_string()))
    );
    assert_eq!(dispatch(message("ACTIVITY_JOIN", no_data())), None);
    assert_eq!(dispatch(message("ACTIVITY_SPECTATE", no_data())), None);
}

#[test]
fn dispatch_join_request_takes_the_user() {
    let data = EventData { user: Some(user()), ..no_data() };
    assert_eq!(
        dispatch(message("ACTIVITY_JOIN_REQUEST", data)),
        Some(Event::JoinRequested(user()))
    );
    assert_eq!(dispatch(message("ACTIVITY_JOIN_REQUEST", no_data())), None);
}

#[test]
fn dispatch_reads_only_what_the_name_promises() {
    let all = EventData {
        error: Some(StreamError { message: "oops".to_string(), code: 7 }),
        secret: Some("s3cret".to_string()),
        user: Some(user()),
    };
    assert_eq!(
        dispatch(message("ACTIVITY_JOIN", all.clone())),
        Some(Event::GameJoined("s3cret".to_string()))
    );
    assert_eq!(
        dispatch(message("ACTIVITY_JOIN_REQUEST", all.clone())),
        Some(Event::JoinRequested(user()))
    );
    assert_eq!(dispatch(message("READY", all.clone())), None);
    assert_eq!(dispatch(message("activity_join", all.clone())), None);
    assert_eq!(dispatch(message("", all)), None);
}

#[test]
fn inbound_reads_on_after_each_message() {
    let data = EventData { secret: Some("s".to_string()), ..no_data() };
    assert_eq!(
        inbound(Ok(Some(message("ACTIVITY_JOIN", data)))),
        Inbound::Deliver(Event::GameJoined("s".to_string()))
    );
    assert_eq!(inbound(Ok(Some(message("SOMETHING_ELSE", no_data())))), Inbound::Skip);
}

#[test]
fn inbound_stops_without_a_message() {
    assert_eq!(inbound(Ok(None)), Inbound::Done);
    assert_eq!(inbound(Err(JsonReadError::Disconnected)), Inbound::Done);
    assert_eq!(inbound(Err(JsonReadError::Stream(None))), Inbound::Done);
    let fault = serde_json::from_str::<u32>("x").unwrap_err();
    assert_eq!(inbound(Err(JsonReadError::Json(fault))), Inbound::Done);
}

#[test]
fn outbound_writes_presence_before_the_queued_commands() {
    let session = connected_session();
    let mut shared = SharedState::new();
    shared.update_presence(b"presence".to_vec());
    let frames = session.outbound(&mut shared, vec![b"first".to_vec(), b"second".to_vec()]);
    assert_eq!(
        frames,
        vec![
            encode_frame(opcode::FRAME, b"presence"),
            encode_frame(opcode::FRAME, b"first"),
            encode_frame(opcode::FRAME, b"second"),
        ]
    );
    assert!(shared.take_presence().is_none());
}

#[test]
fn outbound_without_a_pending_update_writes_the_queue() {
    let session = connected_session();
    let mut shared = SharedState::new();
    let frames = session.outbound(&mut shared, vec![b"only".to_vec()]);
    assert_eq!(frames, vec![vec![1, 0, 0, 0, 4, 0, 0, 0, b'o', b'n', b'l', b'y']]);
    assert!(session.outbound(&mut shared, vec![]).is_empty());
}

#[test]
fn two_presence_updates_give_one_frame_with_the_second() {
    let session = connected_session();
    let mut shared = SharedState::new();
    shared.update_presence(b"{\"nonce\":1}".to_vec());
    shared.update_presence(b"{\"nonce\":2}".to_vec());
    let frames = session.outbound(&mut shared, vec![]);
    assert_eq!(frames, vec![encode_frame(opcode::FRAME, b"{\"nonce\":2}")]);
    assert!(session.outbound(&mut shared, vec![]).is_empty());
}

#[test]
fn outbound_while_disconnected_drops_everything() {
    let session = Session::new("1234".to_string(), 0);
    let mut shared = SharedState::new();
    shared.update_presence(b"presence".to_vec());
    let frames = session.outbound(&mut shared, vec![b"first".to_vec()]);
    assert!(frames.is_empty());
    assert!(shared.take_presence().is_none());
    let connected = connected_session();
    assert!(connected.outbound(&mut shared, vec![]).is_empty());
}

#[test]
fn outbound_while_awaiting_the_handshake_still_writes() {
    let session = awaiting_session();
    let mut shared = SharedState::new();
    shared.update_presence(b"p".to_vec());
    let frames = session.outbound(&mut shared, vec![]);
    assert_eq!(frames, vec![encode_frame(opcode::FRAME, b"p")]);
}
