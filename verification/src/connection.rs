//! The connection to the peer as a state machine.
//!
//! A connection starts `Disconnected`. Opening it acquires a stream and sends
//! the handshake, which leaves it `AwaitingHandshake`; a valid reply makes it
//! `Ready`. Any fault of the stream, and a CLOSE frame from the peer, take it
//! back to `Disconnected`.
//!
//! The connection never touches the stream. For each step it says what is to
//! be read or written, and it takes the outcome as a value: the bytes that
//! were read, or the way in which the read or write ended.

use vstd::prelude::*;
use crate::frame::{encode_frame, decode_header, spec_encode, spec_decode_header, HEADER_LEN};
use crate::messages::{Handshake, HandshakeReply};
use crate::presence::User;

pub mod error_code;
pub mod opcode;

verus! {

/// `std::io::Error`, carried through as an opaque value.
#[verifier::external_type_specification]
#[verifier::external_body]
pub struct ExIoError(std::io::Error);

/// `serde_json::Error`, carried through as an opaque value.
#[verifier::external_type_specification]
#[verifier::external_body]
pub struct ExJsonError(serde_json::Error);

/// The protocol version that the handshake announces.
pub const PROTOCOL_VERSION: i32 = 1;

/// A fault of the stream, raised here or sent by the peer in a CLOSE frame.
#[derive(Debug, PartialEq, Eq)]
pub struct StreamError {
    pub message: String,
    /// One of the codes of `error_code` where the fault was raised here.
    pub code: u8,
}

impl Clone for StreamError {
    fn clone(&self) -> (copy: Self)
        ensures
            copy == *self,
    {
        StreamError { message: self.message.clone(), code: self.code }
    }
}

impl StreamError {
    /// This error has the given text and code.
    pub open spec fn says(&self, message: Seq<char>, code: u8) -> bool {
        self.message@ == message && self.code == code
    }
}

/// Why an attempt to open the connection failed.
#[derive(Debug)]
pub enum OpenError {
    /// No stream could be acquired.
    Stream(std::io::Error),
    /// The handshake could not be sent.
    HandshakeSend(JsonWriteError),
    /// The read of the handshake reply failed.
    HandshakeReceive(JsonReadError),
    /// The peer answered the handshake with this reply, which is not
    /// `DISPATCH` of `READY`.
    InvalidHandshake(HandshakeReply),
}

/// Why a read gave no message.
#[derive(Debug)]
pub enum JsonReadError {
    /// The payload of a FRAME was not the message that was read for.
    Json(serde_json::Error),
    /// The PONG that answers a PING could not be written.
    Io(std::io::Error),
    /// The stream failed, or the peer closed it: the connection is closed,
    /// with this error if there is one.
    Stream(Option<StreamError>),
    /// No stream is held.
    Disconnected,
}

/// Why a frame was not written.
#[derive(Debug)]
pub enum RawWriteError {
    /// The stream refused the write.
    Io(std::io::Error),
    /// No stream is held.
    Disconnected,
}

/// Why a message was not written.
#[derive(Debug)]
pub enum JsonWriteError {
    /// The message could not be turned into bytes.
    Json(serde_json::Error),
    /// The frame that holds the message was not written.
    Raw(RawWriteError),
}

/// Where a connection stands.
#[derive(Clone, Copy, Debug, PartialEq, Eq)]
pub enum State {
    /// No stream is held.
    Disconnected,
    /// A stream is held and the handshake was sent; no valid reply has come.
    AwaitingHandshake,
    /// The peer accepted the handshake.
    Ready,
}

/// How an attempt to read an exact number of bytes without blocking ended.
#[derive(Clone, Debug, PartialEq, Eq)]
pub enum ReadOutcome {
    /// The bytes that were read.
    Filled(Vec<u8>),
    /// Nothing was there to read.
    WouldBlock,
    /// The read failed in any other way, or ended short.
    Failed,
}

/// How acquiring a stream and sending the handshake over it ended.
#[derive(Debug)]
pub enum ConnectOutcome {
    /// No stream could be acquired.
    NoStream(std::io::Error),
    /// The handshake could not be turned into bytes.
    NotEncoded(serde_json::Error),
    /// The stream refused the handshake frame.
    NotWritten(std::io::Error),
    /// The handshake frame was written.
    Sent,
}

/// What `open` has to do in the state the connection is in.
#[derive(Clone, Copy, Debug, PartialEq, Eq)]
pub enum OpenPlan<'a> {
    /// The connection is ready: nothing to do.
    Ready,
    /// The handshake was sent: try once to read the reply, and report it
    /// with `finish_open`.
    AwaitReply,
    /// Acquire a stream and send this handshake in a HANDSHAKE frame, and
    /// report with `handshake_sent`.
    Connect(Handshake<'a>),
}

/// How an `open` that did not fail ended.
#[derive(Clone, Debug, PartialEq, Eq)]
pub enum Opened {
    /// The handshake is under way.
    Pending,
    /// The peer accepted the handshake just now, and sent this user, if any.
    Connected(Option<User>),
    /// The connection was ready before.
    Ready,
}

/// What follows the read of a frame header, where the read goes on.
#[derive(Clone, Debug, PartialEq, Eq)]
pub enum HeaderStep {
    /// No frame has arrived. The read ends with no message.
    NoData,
    /// A header arrived: read `length` payload bytes and report them with
    /// `payload_read`.
    Payload { opcode: u32, length: u32 },
}

/// What follows the read of a frame's payload, where the read goes on.
#[derive(Clone, Debug, PartialEq, Eq)]
pub enum ReadStep {
    /// A FRAME arrived: the read ends with this payload as its message.
    Message(Vec<u8>),
    /// A PING arrived: write this PONG frame, and report with `pong_written`.
    Pong(Vec<u8>),
    /// A PONG arrived: read the next frame.
    Again,
    /// A CLOSE arrived: this payload may hold the peer's error. Report what
    /// it holds with `peer_closed`.
    PeerClosed(Vec<u8>),
}

/// The payload that a read has delivered for a header that announced
/// `length` bytes. An empty payload needs no read, so nothing can go wrong
/// with it; any other is there only if the read filled exactly `length` bytes.
pub open spec fn received_payload(length: u32, outcome: ReadOutcome) -> Option<Seq<u8>> {
    if length == 0 {
        Some(Seq::empty())
    } else {
        match outcome {
            ReadOutcome::Filled(bytes) => if bytes@.len() == length {
                Some(bytes@)
            } else {
                None
            },
            _ => None,
        }
    }
}

/// A handshake reply is valid when the peer dispatches READY.
pub open spec fn valid_reply(reply: HandshakeReply) -> bool {
    reply.command@ == "DISPATCH"@ && reply.event@ == "READY"@
}

/// The connection `before`, closed.
pub open spec fn closed(before: ConnectionView) -> ConnectionView {
    ConnectionView { state: State::Disconnected, ..before }
}

/// What taking in how the handshake was sent does: `result` and the
/// connection `after` it. A handshake that was written makes a connection
/// without a stream wait for the reply; it does nothing to a connection
/// that held a stream. Each failure comes back under the step that failed.
pub open spec fn handshake_step(
    before: ConnectionView,
    outcome: ConnectOutcome,
    after: ConnectionView,
    result: Result<(), OpenError>,
) -> bool {
    match outcome {
        ConnectOutcome::Sent => {
            &&& result is Ok
            &&& after == if before.state == State::Disconnected {
                ConnectionView { state: State::AwaitingHandshake, ..before }
            } else {
                before
            }
        },
        ConnectOutcome::NoStream(e) => result == Err::<(), OpenError>(OpenError::Stream(e))
            && after == before,
        ConnectOutcome::NotEncoded(e) => result == Err::<(), OpenError>(
            OpenError::HandshakeSend(JsonWriteError::Json(e)),
        ) && after == before,
        ConnectOutcome::NotWritten(e) => result == Err::<(), OpenError>(
            OpenError::HandshakeSend(JsonWriteError::Raw(RawWriteError::Io(e))),
        ) && after == before,
    }
}

/// The fault that a read of the handshake reply ends with on a connection
/// without a stream: the fault that the read reported, or, where it
/// reported none, that nothing can be read.
pub open spec fn reply_fault(read: Result<Option<HandshakeReply>, JsonReadError>) -> JsonReadError {
    match read {
        Err(e) => e,
        Ok(_) => JsonReadError::Disconnected,
    }
}

/// What taking in the read of the handshake reply does: `result` and the
/// connection `after` it. Only a connection that awaits the reply takes
/// one: a valid reply makes it ready, any other is an invalid handshake.
/// A connection that was ready stays so, and one without a stream has
/// nothing to read a reply from.
pub open spec fn open_finished(
    before: ConnectionView,
    read: Result<Option<HandshakeReply>, JsonReadError>,
    after: ConnectionView,
    result: Result<Opened, OpenError>,
) -> bool {
    match before.state {
        State::Ready => result == Ok::<Opened, OpenError>(Opened::Ready) && after == before,
        State::Disconnected => result == Err::<Opened, OpenError>(
            OpenError::HandshakeReceive(reply_fault(read)),
        ) && after == before,
        State::AwaitingHandshake => match read {
            Ok(Some(reply)) => if valid_reply(reply) {
                &&& result == Ok::<Opened, OpenError>(Opened::Connected(reply.data.user))
                &&& after == (ConnectionView { state: State::Ready, ..before })
            } else {
                &&& result == Err::<Opened, OpenError>(OpenError::InvalidHandshake(reply))
                &&& after == before
            },
            Ok(None) => result == Ok::<Opened, OpenError>(Opened::Pending) && after == before,
            Err(e) => result == Err::<Opened, OpenError>(OpenError::HandshakeReceive(e)) && after
                == before,
        },
    }
}

/// The read ended with a fault of the stream that has the given text and
/// code.
pub open spec fn is_fault<T>(result: Result<T, JsonReadError>, message: Seq<char>, code: u8) -> bool {
    result matches Err(JsonReadError::Stream(Some(error))) && error.says(message, code)
}

/// What taking in the read of a header does: the `result`, which is the
/// step that follows or the error that the read ends with, and the
/// connection `after` it.
pub open spec fn header_step(
    before: ConnectionView,
    outcome: ReadOutcome,
    after: ConnectionView,
    result: Result<HeaderStep, JsonReadError>,
) -> bool {
    if before.state == State::Disconnected {
        result == Err::<HeaderStep, JsonReadError>(JsonReadError::Disconnected) && after == before
    } else {
        match outcome {
            ReadOutcome::WouldBlock => result == Ok::<HeaderStep, JsonReadError>(
                HeaderStep::NoData,
            ) && after == before,
            ReadOutcome::Filled(header) if header@.len() == HEADER_LEN => {
                &&& result == Ok::<HeaderStep, JsonReadError>(
                    HeaderStep::Payload {
                        opcode: spec_decode_header(header@).0,
                        length: spec_decode_header(header@).1,
                    },
                )
                &&& after == before
            },
            _ => is_fault(result, "Pipe closed"@, error_code::PIPE_CLOSED) && after == closed(
                before,
            ),
        }
    }
}

/// What taking in the read of a payload does: the `result`, which is the
/// step that follows or the error that the read ends with, and the
/// connection `after` it.
pub open spec fn payload_step(
    before: ConnectionView,
    opcode: u32,
    length: u32,
    outcome: ReadOutcome,
    after: ConnectionView,
    result: Result<ReadStep, JsonReadError>,
) -> bool {
    if before.state == State::Disconnected {
        result == Err::<ReadStep, JsonReadError>(JsonReadError::Disconnected) && after == before
    } else {
        match received_payload(length, outcome) {
            None => is_fault(result, "Partial data in frame"@, error_code::READ_CORRUPT) && after
                == closed(before),
            Some(payload) => if opcode == opcode::FRAME {
                &&& result matches Ok(ReadStep::Message(message))
                &&& message@ == payload
                &&& after == before
            } else if opcode == opcode::CLOSE {
                &&& result matches Ok(ReadStep::PeerClosed(message))
                &&& message@ == payload
                &&& after == before
            } else if opcode == opcode::PING {
                &&& result matches Ok(ReadStep::Pong(frame))
                &&& frame@ == spec_encode(opcode::PONG, Seq::empty())
                &&& after == before
            } else if opcode == opcode::PONG {
                &&& result == Ok::<ReadStep, JsonReadError>(ReadStep::Again)
                &&& after == before
            } else {
                &&& is_fault(result, "Bad frame"@, error_code::READ_CORRUPT)
                &&& after == closed(before)
            },
        }
    }
}

/// Whether `s` holds exactly the characters of `text`.
pub fn is_text(s: &String, text: &str) -> (same: bool)
    ensures
        same == (s@ == text@),
{
    let owned = text.to_owned();
    *s == owned
}

fn stream_error(message: &str, code: u8) -> (error: StreamError)
    ensures
        error.says(message@, code),
{
    StreamError { message: message.to_owned(), code }
}

/// What a connection is, as far as its contracts speak of it.
pub struct ConnectionView {
    pub state: State,
    pub app_id: Seq<char>,
}

/// The connection of one application to the peer.
pub struct Connection {
    state: State,
    app_id: String,
}

impl View for Connection {
    type V = ConnectionView;

    closed spec fn view(&self) -> ConnectionView {
        ConnectionView { state: self.state, app_id: self.app_id@ }
    }
}

impl Connection {
    /// Where the connection stands.
    pub open spec fn spec_state(&self) -> State {
        self@.state
    }

    /// A stream is held.
    pub open spec fn has_stream(&self) -> bool {
        self@.state != State::Disconnected
    }

    /// A connection for the application `app_id` that holds no stream yet.
    pub fn new(app_id: String) -> (connection: Self)
        ensures
            connection@ == (ConnectionView { state: State::Disconnected, app_id: app_id@ }),
    {
        Connection { state: State::Disconnected, app_id }
    }

    /// The application that this connection serves.
    pub fn app_id(&self) -> (app_id: &str)
        ensures
            app_id@ == self@.app_id,
    {
        self.app_id.as_str()
    }

    /// Where the connection stands.
    #[verifier::when_used_as_spec(spec_state)]
    pub fn state(&self) -> (state: State)
        ensures
            state == self@.state,
    {
        self.state
    }

    /// Whether the peer has accepted the handshake.
    pub fn is_connected(&self) -> (connected: bool)
        ensures
            connected == (self@.state == State::Ready),
    {
        match self.state {
            State::Ready => true,
            _ => false,
        }
    }

    fn close(&mut self)
        ensures
            final(self)@ == closed(old(self)@),
    {
        self.state = State::Disconnected;
    }

    /// Closes the connection over a fault that is raised here.
    fn fail(&mut self, message: &str, code: u8) -> (fault: JsonReadError)
        ensures
            final(self)@ == closed(old(self)@),
            fault matches JsonReadError::Stream(Some(error)) && error.says(message@, code),
    {
        self.close();
        JsonReadError::Stream(Some(stream_error(message, code)))
    }

    /// What opening has to do now. Once the connection is ready, nothing.
    pub fn open(&self) -> (plan: OpenPlan<'_>)
        ensures
            match self@.state {
                State::Ready => plan == OpenPlan::Ready,
                State::AwaitingHandshake => plan == OpenPlan::AwaitReply,
                State::Disconnected => plan matches OpenPlan::Connect(handshake)
                    && handshake.version == PROTOCOL_VERSION && handshake.app_id@
                    == self@.app_id,
            },
    {
        match self.state {
            State::Ready => OpenPlan::Ready,
            State::AwaitingHandshake => OpenPlan::AwaitReply,
            State::Disconnected => OpenPlan::Connect(
                Handshake { version: PROTOCOL_VERSION, app_id: self.app_id.as_str() },
            ),
        }
    }

    /// Takes in how acquiring a stream and sending the handshake ended. Only
    /// a handshake that was written leaves a stream held; each failure is
    /// returned under the step that failed.
    pub fn handshake_sent(&mut self, outcome: ConnectOutcome) -> (result: Result<(), OpenError>)
        ensures
            handshake_step(old(self)@, outcome, final(self)@, result),
    {
        match outcome {
            ConnectOutcome::Sent => {
                match self.state {
                    State::Disconnected => {
                        self.state = State::AwaitingHandshake;
                    },
                    _ => {},
                }
                Ok(())
            },
            ConnectOutcome::NoStream(e) => Err(OpenError::Stream(e)),
            ConnectOutcome::NotEncoded(e) => Err(OpenError::HandshakeSend(JsonWriteError::Json(e))),
            ConnectOutcome::NotWritten(e) => Err(
                OpenError::HandshakeSend(JsonWriteError::Raw(RawWriteError::Io(e))),
            ),
        }
    }

    /// Takes in what the read of the handshake reply gave. A valid reply
    /// makes the connection ready. Any other reply is returned as an invalid
    /// handshake and leaves the connection waiting, as does a read that
    /// found no data or failed.
    pub fn finish_open(&mut self, read: Result<Option<HandshakeReply>, JsonReadError>) -> (result:
        Result<Opened, OpenError>)
        ensures
            open_finished(old(self)@, read, final(self)@, result),
    {
        match self.state {
            State::Ready => Ok(Opened::Ready),
            State::Disconnected => match read {
                Err(e) => Err(OpenError::HandshakeReceive(e)),
                Ok(_) => Err(OpenError::HandshakeReceive(JsonReadError::Disconnected)),
            },
            State::AwaitingHandshake => match read {
                Ok(Some(reply)) => {
                    if !is_text(&reply.command, "DISPATCH") || !is_text(&reply.event, "READY") {
                        return Err(OpenError::InvalidHandshake(reply));
                    }
                    self.state = State::Ready;
                    Ok(Opened::Connected(reply.data.user))
                },
                Ok(None) => Ok(Opened::Pending),
                Err(e) => Err(OpenError::HandshakeReceive(e)),
            },
        }
    }

    /// Takes in how the read of a frame header ended. Without a stream
    /// there was nothing to read from. A read that would block means that
    /// no frame has arrived, and changes nothing. Eight bytes are a header.
    /// Anything else is the end of the stream: the connection is closed,
    /// and the read ends with the fault.
    pub fn header_read(&mut self, outcome: ReadOutcome) -> (result: Result<
        HeaderStep,
        JsonReadError,
    >)
        ensures
            header_step(old(self)@, outcome, final(self)@, result),
    {
        match self.state {
            State::Disconnected => {
                return Err(JsonReadError::Disconnected);
            },
            _ => {},
        }
        match outcome {
            ReadOutcome::WouldBlock => Ok(HeaderStep::NoData),
            ReadOutcome::Filled(header) => match decode_header(header.as_slice()) {
                Some((opcode, length)) => Ok(HeaderStep::Payload { opcode, length }),
                None => Err(self.fail("Pipe closed", error_code::PIPE_CLOSED)),
            },
            ReadOutcome::Failed => Err(self.fail("Pipe closed", error_code::PIPE_CLOSED)),
        }
    }

    /// Takes in how the read of a frame's payload ended, for the header that
    /// announced it. A payload that is not there in full closes the
    /// connection as corrupt, and so does a frame of no known kind. A CLOSE
    /// frame leaves the connection as it is until `peer_closed` is told what
    /// the payload holds.
    pub fn payload_read(&mut self, opcode: u32, length: u32, outcome: ReadOutcome) -> (result:
        Result<ReadStep, JsonReadError>)
        ensures
            payload_step(old(self)@, opcode, length, outcome, final(self)@, result),
    {
        match self.state {
            State::Disconnected => {
                return Err(JsonReadError::Disconnected);
            },
            _ => {},
        }
        let payload: Vec<u8> = if length == 0 {
            Vec::new()
        } else {
            match outcome {
                ReadOutcome::Filled(bytes) if bytes.len() == length as usize => bytes,
                _ => {
                    return Err(self.fail("Partial data in frame", error_code::READ_CORRUPT));
                },
            }
        };
        if opcode == opcode::FRAME {
            Ok(ReadStep::Message(payload))
        } else if opcode == opcode::CLOSE {
            Ok(ReadStep::PeerClosed(payload))
        } else if opcode == opcode::PING {
            let empty: Vec<u8> = Vec::new();
            Ok(ReadStep::Pong(encode_frame(opcode::PONG, empty.as_slice())))
        } else if opcode == opcode::PONG {
            Ok(ReadStep::Again)
        } else {
            Err(self.fail("Bad frame", error_code::READ_CORRUPT))
        }
    }

    /// Closes the connection after a CLOSE frame, with the error that the
    /// frame held, if it held one. The read ends with that error.
    pub fn peer_closed(&mut self, error: Option<StreamError>) -> (result: JsonReadError)
        ensures
            result == JsonReadError::Stream(error),
            final(self)@ == closed(old(self)@),
    {
        self.close();
        JsonReadError::Stream(error)
    }

    /// Takes in how the write of a PONG ended. A failed write closes the
    /// connection, and the read that answered the PING ends with the fault.
    pub fn pong_written(&mut self, outcome: Result<(), std::io::Error>) -> (result: Option<
        JsonReadError,
    >)
        ensures
            match outcome {
                Ok(_) => result is None && final(self)@ == old(self)@,
                Err(e) => result == Some(JsonReadError::Io(e)) && final(self)@ == closed(
                    old(self)@,
                ),
            },
    {
        match outcome {
            Ok(_) => None,
            Err(e) => {
                self.close();
                Some(JsonReadError::Io(e))
            },
        }
    }

    /// The FRAME to write for `message`, or `Disconnected` when no stream is
    /// held. The connection itself does not change: a write that fails
    /// later is the caller's to drop.
    pub fn write_raw(&self, message: &[u8]) -> (result: Result<Vec<u8>, RawWriteError>)
        requires
            message@.len() <= u32::MAX,
        ensures
            self.has_stream() ==> (result matches Ok(frame) && frame@ == spec_encode(
                opcode::FRAME,
                message@,
            )),
            !self.has_stream() ==> result == Err::<Vec<u8>, RawWriteError>(
                RawWriteError::Disconnected,
            ),
    {
        match self.state {
            State::Disconnected => Err(RawWriteError::Disconnected),
            _ => Ok(encode_frame(opcode::FRAME, message)),
        }
    }
}

/// A reply that is not `DISPATCH` of `READY` does not make the connection
/// ready: the connection stays as it was, and the reply comes back as an
/// invalid handshake.
pub proof fn lemma_invalid_handshake_is_refused(
    before: ConnectionView,
    reply: HandshakeReply,
    after: ConnectionView,
    result: Result<Opened, OpenError>,
)
    requires
        open_finished(before, Ok(Some(reply)), after, result),
        reply.command@ != "DISPATCH"@ || reply.event@ != "READY"@,
    ensures
        after == before,
        before.state != State::Ready ==> after.state != State::Ready,
        before.state == State::AwaitingHandshake ==> result == Err::<Opened, OpenError>(
            OpenError::InvalidHandshake(reply),
        ),
        !(result matches Ok(Opened::Connected(_))),
{
}

/// The connection becomes ready in one way only: it awaited the reply, and
/// the reply that came is `DISPATCH` of `READY`.
pub proof fn lemma_ready_needs_a_valid_reply(
    before: ConnectionView,
    read: Result<Option<HandshakeReply>, JsonReadError>,
    after: ConnectionView,
    result: Result<Opened, OpenError>,
)
    requires
        open_finished(before, read, after, result),
        before.state != State::Ready,
        after.state == State::Ready,
    ensures
        before.state == State::AwaitingHandshake,
        read matches Ok(Some(reply)) && valid_reply(reply) && result == Ok::<Opened, OpenError>(
            Opened::Connected(reply.data.user),
        ),
{
}

/// A header read that found no data leaves the connection as it was, and a
/// payload read that ends short after it closes the connection and reports
/// the frame as corrupt.
pub proof fn lemma_faults_are_isolated(
    before: ConnectionView,
    between: ConnectionView,
    header: Result<HeaderStep, JsonReadError>,
    opcode: u32,
    length: u32,
    outcome: ReadOutcome,
    after: ConnectionView,
    result: Result<ReadStep, JsonReadError>,
)
    requires
        before.state != State::Disconnected,
        header_step(before, ReadOutcome::WouldBlock, between, header),
        payload_step(between, opcode, length, outcome, after, result),
        length > 0,
        !(outcome matches ReadOutcome::Filled(bytes) && bytes@.len() == length),
    ensures
        header == Ok::<HeaderStep, JsonReadError>(HeaderStep::NoData),
        between == before,
        after.state == State::Disconnected,
        after.app_id == before.app_id,
        result matches Err(JsonReadError::Stream(Some(error))) && error.code
            == error_code::READ_CORRUPT,
{
}

/// The connection is ready only after a valid reply: no step of a read
/// makes a connection ready that was not.
pub proof fn lemma_reads_never_connect(
    before: ConnectionView,
    opcode: u32,
    length: u32,
    outcome: ReadOutcome,
    after: ConnectionView,
    header: Result<HeaderStep, JsonReadError>,
    result: Result<ReadStep, JsonReadError>,
)
    requires
        before.state != State::Ready,
        header_step(before, outcome, after, header) || payload_step(
            before,
            opcode,
            length,
            outcome,
            after,
            result,
        ),
    ensures
        after.state != State::Ready,
{
}

/// Without a stream every step of a read ends with `Disconnected` and
/// changes nothing.
pub proof fn lemma_reads_need_a_stream(
    before: ConnectionView,
    opcode: u32,
    length: u32,
    outcome: ReadOutcome,
    after: ConnectionView,
    header: Result<HeaderStep, JsonReadError>,
    result: Result<ReadStep, JsonReadError>,
)
    requires
        before.state == State::Disconnected,
        header_step(before, outcome, after, header) || payload_step(
            before,
            opcode,
            length,
            outcome,
            after,
            result,
        ),
    ensures
        after == before,
        header_step(before, outcome, after, header) ==> header == Err::<
            HeaderStep,
            JsonReadError,
        >(JsonReadError::Disconnected),
        payload_step(before, opcode, length, outcome, after, result) ==> result == Err::<
            ReadStep,
            JsonReadError,
        >(JsonReadError::Disconnected),
{
}

} // verus!
