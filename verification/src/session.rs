//! A session: connect for requests, send one framed request, connect for
//! responses, arm the cancellation gate, then read responses.
//!
//! The session performs no input or output itself. It hands its driver one
//! action at a time and is told how the action ended.

use crate::address::{get_url, url_text};
use crate::codec::{encode, frame_bytes};
use crate::json::{json_parse, parse, reading, JsonFault};
use crate::reader::{
    initial_state, next_state, request, request_of, start, step, Fault, ReaderEvent, ReaderState,
    Request, Signal,
};
use vstd::prelude::*;
use vstd::utf8::encode_utf8;

verus! {

/// What a session is run with.
#[derive(Debug, PartialEq, Eq)]
pub struct SessionConfig {
    /// The host that both connections go to.
    pub host: String,
    /// The port that takes requests.
    pub request_port: u32,
    /// The port that gives responses.
    pub response_port: u32,
    /// The text of the request.
    pub request: String,
    /// The number of response frames to consume.
    pub read_budget: u64,
    /// Whether a failed write of the request ends the session. Where it does
    /// not, the session goes on to read responses all the same.
    pub strict_writes: bool,
}

/// Why a session failed.
#[derive(Clone, Copy, Debug, PartialEq, Eq, Structural)]
pub enum SessionError {
    /// No connection could be opened to this port.
    ConnectFailed { port: u32 },
    /// The request is not JSON; nothing was sent.
    InvalidRequestJson(JsonFault),
    /// The request is longer than a header can say; nothing was sent.
    LengthOverflow,
    /// The request could not be written, and the session is strict on that.
    WriteFailed,
    /// The response reader met a fault.
    Reader(Fault),
    /// A report came that does not answer the action that was asked for.
    OutOfTurn,
}

/// Where a session stands.
#[derive(Debug, PartialEq)]
pub enum SessionState {
    /// The connection for requests is being opened.
    ConnectingRequest,
    /// The request frame is being written.
    Sending,
    /// The connection for responses is being opened.
    ConnectingResponse,
    /// The cancellation gate is being armed.
    ArmingGate,
    /// Responses are being read.
    Receiving(ReaderState),
    /// Done: the read budget is spent.
    Exhausted,
    /// Done: the response connection was half-closed before a header began.
    Cancelled,
    /// Done: the session failed.
    Failed(SessionError),
}

/// What the driver is asked to do next.
#[derive(Debug, PartialEq)]
pub enum Action {
    /// Open a connection to this address.
    Connect { address: String, port: u32 },
    /// Write the whole frame to the request connection. `message` is the
    /// request as parsed, for display.
    Send { frame: Vec<u8>, message: serde_json::Value },
    /// Register the interrupt handler that half-closes the read side of the
    /// response connection.
    ArmGate,
    /// Read this many bytes from the response connection, stopping early
    /// only where the data ends or the read fails.
    Read(usize),
    /// Show the message that the session's reader holds.
    Present,
    /// Nothing more: the session is done.
    Stop,
}

/// What the driver reports back.
#[derive(Debug, PartialEq, Eq)]
pub enum SessionEvent {
    /// The connection is open.
    Connected,
    /// The connection could not be opened.
    ConnectFailed,
    /// The frame has been written in full.
    Written,
    /// The frame could not be written in full.
    WriteFailed,
    /// The interrupt handler is registered.
    GateArmed,
    /// A report for the response reader.
    Reader(ReaderEvent),
}

/// A driver's report as the contracts see it: a `SessionEvent` with its
/// bytes as a sequence.
pub ghost enum SessionSignal {
    /// The connection is open.
    Connected,
    /// The connection could not be opened.
    ConnectFailed,
    /// The frame has been written in full.
    Written,
    /// The frame could not be written in full.
    WriteFailed,
    /// The interrupt handler is registered.
    GateArmed,
    /// A report for the response reader.
    Reader(Signal),
}

impl View for SessionEvent {
    type V = SessionSignal;

    open spec fn view(&self) -> SessionSignal {
        match self {
            SessionEvent::Connected => SessionSignal::Connected,
            SessionEvent::ConnectFailed => SessionSignal::ConnectFailed,
            SessionEvent::Written => SessionSignal::Written,
            SessionEvent::WriteFailed => SessionSignal::WriteFailed,
            SessionEvent::GateArmed => SessionSignal::GateArmed,
            SessionEvent::Reader(event) => SessionSignal::Reader(event@),
        }
    }
}

impl SessionState {
    /// The session is done and will ask for nothing more.
    pub open spec fn is_terminal(self) -> bool {
        self is Exhausted || self is Cancelled || self is Failed
    }
}

/// The request that is sent where no other is given.
pub open spec fn builtin_request() -> Seq<char> {
    "{\n   \"command\" : \"FETCH\",\n   \"parameters\" : [\n      \"REPLAY\",\n      \"archive_211015_123637\"\n   ]\n}"@
}

/// The frame that carries a request. A text that is not JSON is never
/// framed.
pub open spec fn request_frame(text: Seq<char>) -> Result<Seq<u8>, SessionError> {
    match reading(json_parse(text)) {
        Ok(_) => match frame_bytes(encode_utf8(text)) {
            Ok(frame) => Ok(frame),
            Err(_) => Err(SessionError::LengthOverflow),
        },
        Err(fault) => Err(SessionError::InvalidRequestJson(fault)),
    }
}

/// The session state that stands for a reader state: a reader that is done
/// ends the session.
pub open spec fn receiving(reader: ReaderState) -> SessionState {
    match reader {
        ReaderState::Exhausted => SessionState::Exhausted,
        ReaderState::Cancelled => SessionState::Cancelled,
        ReaderState::Faulted(fault) => SessionState::Failed(SessionError::Reader(fault)),
        _ => SessionState::Receiving(reader),
    }
}

/// The state that follows a state on a report. A session that is done stays
/// as it is; for any other, a report that does not answer the action asked
/// for fails the session.
pub open spec fn session_next(
    config: SessionConfig,
    state: SessionState,
    signal: SessionSignal,
) -> SessionState {
    match (state, signal) {
        (SessionState::ConnectingRequest, SessionSignal::Connected) => {
            match request_frame(config.request@) {
                Ok(_) => SessionState::Sending,
                Err(e) => SessionState::Failed(e),
            }
        },
        (SessionState::ConnectingRequest, SessionSignal::ConnectFailed) => SessionState::Failed(
            SessionError::ConnectFailed { port: config.request_port },
        ),
        (SessionState::Sending, SessionSignal::Written) => SessionState::ConnectingResponse,
        (SessionState::Sending, SessionSignal::WriteFailed) => {
            if config.strict_writes {
                SessionState::Failed(SessionError::WriteFailed)
            } else {
                SessionState::ConnectingResponse
            }
        },
        (SessionState::ConnectingResponse, SessionSignal::Connected) => SessionState::ArmingGate,
        (SessionState::ConnectingResponse, SessionSignal::ConnectFailed) => SessionState::Failed(
            SessionError::ConnectFailed { port: config.response_port },
        ),
        (SessionState::ArmingGate, SessionSignal::GateArmed) => receiving(
            initial_state(config.read_budget),
        ),
        (SessionState::Receiving(reader), SessionSignal::Reader(signal)) => receiving(
            next_state(reader, signal),
        ),
        _ => if state.is_terminal() {
            state
        } else {
            SessionState::Failed(SessionError::OutOfTurn)
        },
    }
}

/// Whether an action is the one that a state asks for.
pub open spec fn action_fits(config: SessionConfig, state: SessionState, action: Action) -> bool {
    match state {
        SessionState::ConnectingRequest => action matches Action::Connect { address, port }
            && port == config.request_port && address@ == url_text(config.host@, port as nat),
        SessionState::Sending => action matches Action::Send { frame, message } && request_frame(
            config.request@,
        ) == Ok::<Seq<u8>, SessionError>(frame@) && json_parse(config.request@) == Ok::<
            serde_json::Value,
            serde_json::Error,
        >(message),
        SessionState::ConnectingResponse => action matches Action::Connect { address, port }
            && port == config.response_port && address@ == url_text(config.host@, port as nat),
        SessionState::ArmingGate => action is ArmGate,
        SessionState::Receiving(reader) => match request_of(reader) {
            Request::Read(count) => action == Action::Read(count),
            Request::Present => action is Present,
            Request::Stop => action is Stop,
        },
        _ => action is Stop,
    }
}

/// The status with which the process ends: zero unless the session failed.
pub open spec fn status_of(state: SessionState) -> i32 {
    if state is Failed {
        1
    } else {
        0
    }
}

/// The text of the request: the one that was given, else the built-in one.
pub fn request_text(given: Option<String>) -> (text: String)
    ensures
        text@ == match given {
            Some(t) => t@,
            None => builtin_request(),
        },
{
    match given {
        Some(t) => t,
        None => String::from_str(
            "{\n   \"command\" : \"FETCH\",\n   \"parameters\" : [\n      \"REPLAY\",\n      \"archive_211015_123637\"\n   ]\n}",
        ),
    }
}

/// Checks that a request is JSON and frames it. Gives the frame and the
/// request as parsed.
pub fn prepare_request(text: &str) -> (r: Result<(Vec<u8>, serde_json::Value), SessionError>)
    ensures
        match r {
            Ok((frame, message)) => request_frame(text@) == Ok::<Seq<u8>, SessionError>(frame@)
                && json_parse(text@) == Ok::<serde_json::Value, serde_json::Error>(message),
            Err(e) => request_frame(text@) == Err::<Seq<u8>, SessionError>(e),
        },
{
    match parse(text) {
        Ok(message) => match encode(text.as_bytes()) {
            Ok(frame) => Ok((frame, message)),
            Err(_) => Err(SessionError::LengthOverflow),
        },
        Err(fault) => Err(SessionError::InvalidRequestJson(fault)),
    }
}

/// The session state for a reader state, with the action it asks for.
fn enter(config: &SessionConfig, reader: ReaderState) -> (next: (SessionState, Action))
    ensures
        next.0 == receiving(reader),
        action_fits(*config, next.0, next.1),
{
    match reader {
        ReaderState::Exhausted => (SessionState::Exhausted, Action::Stop),
        ReaderState::Cancelled => (SessionState::Cancelled, Action::Stop),
        ReaderState::Faulted(fault) => (
            SessionState::Failed(SessionError::Reader(fault)),
            Action::Stop,
        ),
        reader => {
            let action = match request(&reader) {
                Request::Read(count) => Action::Read(count),
                Request::Present => Action::Present,
                Request::Stop => Action::Stop,
            };
            (SessionState::Receiving(reader), action)
        },
    }
}

/// Starts a session: the first action is to connect for requests.
pub fn open(config: &SessionConfig) -> (first: (SessionState, Action))
    ensures
        first.0 == SessionState::ConnectingRequest,
        action_fits(*config, first.0, first.1),
{
    (
        SessionState::ConnectingRequest,
        Action::Connect {
            address: get_url(&config.host, config.request_port),
            port: config.request_port,
        },
    )
}

/// Moves the session on by one report and gives the next action.
///
/// The request is checked and framed once the request connection is open,
/// and a request that is not JSON fails the session before anything is
/// sent. The response connection is opened only after the request was
/// written, or failed to be written where the session is not strict on
/// that. The cancellation gate is armed once, after the response
/// connection is open and before the first header is read. From then on the
/// response reader decides.
pub fn advance(config: &SessionConfig, state: SessionState, event: SessionEvent) -> (next: (
    SessionState,
    Action,
))
    ensures
        next.0 == session_next(*config, state, event@),
        action_fits(*config, next.0, next.1),
{
    match (state, event) {
        (SessionState::ConnectingRequest, SessionEvent::Connected) => {
            match prepare_request(config.request.as_str()) {
                Ok((frame, message)) => (SessionState::Sending, Action::Send { frame, message }),
                Err(e) => (SessionState::Failed(e), Action::Stop),
            }
        },
        (SessionState::ConnectingRequest, SessionEvent::ConnectFailed) => (
            SessionState::Failed(SessionError::ConnectFailed { port: config.request_port }),
            Action::Stop,
        ),
        (SessionState::Sending, SessionEvent::Written) => connect_for_responses(config),
        (SessionState::Sending, SessionEvent::WriteFailed) => {
            if config.strict_writes {
                (SessionState::Failed(SessionError::WriteFailed), Action::Stop)
            } else {
                connect_for_responses(config)
            }
        },
        (SessionState::ConnectingResponse, SessionEvent::Connected) => (
            SessionState::ArmingGate,
            Action::ArmGate,
        ),
        (SessionState::ConnectingResponse, SessionEvent::ConnectFailed) => (
            SessionState::Failed(SessionError::ConnectFailed { port: config.response_port }),
            Action::Stop,
        ),
        (SessionState::ArmingGate, SessionEvent::GateArmed) => enter(
            config,
            start(config.read_budget),
        ),
        (SessionState::Receiving(reader), SessionEvent::Reader(event)) => enter(
            config,
            step(reader, event),
        ),
        (SessionState::Exhausted, _) => (SessionState::Exhausted, Action::Stop),
        (SessionState::Cancelled, _) => (SessionState::Cancelled, Action::Stop),
        (SessionState::Failed(e), _) => (SessionState::Failed(e), Action::Stop),
        _ => (SessionState::Failed(SessionError::OutOfTurn), Action::Stop),
    }
}

/// The state in which the response connection is being opened, with the
/// action that opens it.
fn connect_for_responses(config: &SessionConfig) -> (next: (SessionState, Action))
    ensures
        next.0 == SessionState::ConnectingResponse,
        action_fits(*config, next.0, next.1),
{
    (
        SessionState::ConnectingResponse,
        Action::Connect {
            address: get_url(&config.host, config.response_port),
            port: config.response_port,
        },
    )
}

/// The status with which the process ends: zero where the budget was spent
/// or the read was cancelled, and also while the session is still under
/// way; one where it failed.
pub fn exit_status(state: &SessionState) -> (status: i32)
    ensures
        status == status_of(*state),
{
    match state {
        SessionState::Failed(_) => 1,
        _ => 0,
    }
}

/// Nothing is sent that was not checked: the session comes to send only
/// from the open request connection, and only with a request that is JSON
/// and that a frame can hold.
pub proof fn law_only_checked_requests_are_sent(
    config: SessionConfig,
    state: SessionState,
    signal: SessionSignal,
)
    requires
        session_next(config, state, signal) is Sending,
    ensures
        state is ConnectingRequest,
        signal is Connected,
        json_parse(config.request@) is Ok,
        request_frame(config.request@) is Ok,
{
}

/// The response connection is opened only after the request frame was
/// written, or failed to be written in a session that is not strict on that.
pub proof fn law_request_precedes_responses(
    config: SessionConfig,
    state: SessionState,
    signal: SessionSignal,
)
    requires
        session_next(config, state, signal) is ConnectingResponse,
    ensures
        state is Sending,
        signal is Written || (signal is WriteFailed && !config.strict_writes),
{
}

/// Reading begins only once the cancellation gate is armed, and that
/// happens only once: no state leads to its arming but the opening of the
/// response connection, and no state leads to reading but its arming and
/// reading itself.
pub proof fn law_gate_precedes_reading(
    config: SessionConfig,
    state: SessionState,
    signal: SessionSignal,
)
    ensures
        session_next(config, state, signal) is ArmingGate ==> state is ConnectingResponse,
        session_next(config, state, signal) is Receiving ==> state is ArmingGate
            || state is Receiving,
{
}

/// A session that is done stays as it is on every report, and the process
/// ends with a status other than zero exactly where the session failed.
pub proof fn law_session_ends(config: SessionConfig, state: SessionState, signal: SessionSignal)
    requires
        state.is_terminal(),
    ensures
        session_next(config, state, signal) == state,
        status_of(state) != 0 <==> state is Failed,
{
}

} // verus!
