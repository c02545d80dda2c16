//! The bridge state machine and command dispatcher: the single source of
//! truth for "are we connected", and the translation of inbound frames
//! into responses, state transitions, and device actions.
//!
//! Device and network calls happen outside the crate; every outcome comes
//! back in as a plain `Result` and the next state and response are decided
//! here. `dispatch` is the full specification of how a frame is handled.

use vstd::prelude::*;
use vstd::string::*;

use crate::protocol::baud_error_message;
use crate::protocol::baud_error_text;
use crate::protocol::error_response;
use crate::protocol::error_text;
use crate::protocol::parse_u32;
use crate::protocol::parse_u32_spec;
use crate::protocol::split_on_space;
use crate::protocol::split_spaces;
use crate::protocol::str_eq;
use crate::protocol::views_of;
use crate::protocol::BaudError;

verus! {

/// The baud rate used when `CONNECT` is given no second argument.
pub const DEFAULT_BAUD: u32 = 115200;

/// How often the poll loop asks the device for available bytes, in
/// milliseconds.
pub const POLL_INTERVAL_MS: u64 = 5;

/// The relationship to the physical serial device. The open handle itself
/// is owned by the caller that performs device I/O; this tag is the
/// serialized source of truth for whether one exists.
#[derive(Clone, Copy, PartialEq, Eq, Structural, Debug)]
pub enum ConnState {
    Disconnected,
    Connected,
}

/// The bridge: one per serial device, accessed under mutual exclusion.
pub struct Bridge {
    pub state: ConnState,
}

/// An inbound application-level frame, as the transport hands it over.
#[derive(Debug, PartialEq, Eq)]
pub enum Message {
    Text(String),
    Binary(Vec<u8>),
    Ping(Vec<u8>),
    Pong(Vec<u8>),
    Close,
    Other,
}

/// The mathematical shape of an inbound frame.
pub enum MsgV {
    Text(Seq<char>),
    Binary(Seq<u8>),
    Ping(Seq<u8>),
    Pong(Seq<u8>),
    Close,
    Other,
}

impl View for Message {
    type V = MsgV;

    open spec fn view(&self) -> MsgV {
        match self {
            Message::Text(t) => MsgV::Text(t@),
            Message::Binary(d) => MsgV::Binary(d@),
            Message::Ping(p) => MsgV::Ping(p@),
            Message::Pong(p) => MsgV::Pong(p@),
            Message::Close => MsgV::Close,
            Message::Other => MsgV::Other,
        }
    }
}

/// What the caller must do next after a frame was dispatched.
#[derive(Debug, PartialEq, Eq)]
pub enum Step {
    /// Send this text response back on the same channel.
    Respond(String),
    /// Open the named device at the given baud rate, then report the
    /// outcome through `apply_open_result`.
    OpenPort { port: String, baud: u32 },
    /// Write these bytes to the open device, then report the outcome
    /// through `write_result`.
    WriteDevice(Vec<u8>),
    /// Ask the adapter for the visible ports, then respond with
    /// `list_response`.
    QueryPorts,
    /// Answer a ping with a pong carrying the same payload.
    Pong(Vec<u8>),
    /// The client asked to close: end the session.
    CloseSession,
    /// Nothing to do.
    Nothing,
}

/// The mathematical shape of a `Step`.
pub enum StepV {
    Respond(Seq<char>),
    OpenPort { port: Seq<char>, baud: u32 },
    WriteDevice(Seq<u8>),
    QueryPorts,
    Pong(Seq<u8>),
    CloseSession,
    Nothing,
}

impl View for Step {
    type V = StepV;

    open spec fn view(&self) -> StepV {
        match self {
            Step::Respond(t) => StepV::Respond(t@),
            Step::OpenPort { port, baud } => StepV::OpenPort { port: port@, baud: *baud },
            Step::WriteDevice(d) => StepV::WriteDevice(d@),
            Step::QueryPorts => StepV::QueryPorts,
            Step::Pong(p) => StepV::Pong(p@),
            Step::CloseSession => StepV::CloseSession,
            Step::Nothing => StepV::Nothing,
        }
    }
}

/// What `STATUS` reports in each state.
pub open spec fn status_text(s: ConnState) -> Seq<char> {
    if s is Connected {
        "OK: UP"@
    } else {
        "OK: DOWN"@
    }
}

/// How a `CONNECT` command line is turned into a step. The state never
/// changes here: an argument error leaves an existing connection intact,
/// and a successful parse only asks the caller to open the device.
pub open spec fn connect_step(toks: Seq<Seq<char>>) -> StepV {
    if toks.len() < 2 {
        StepV::Respond(error_text("Port is required"@))
    } else {
        let parsed: Result<u32, BaudError> = if toks.len() >= 3 {
            parse_u32_spec(toks[2])
        } else {
            Ok(DEFAULT_BAUD)
        };
        match parsed {
            Ok(b) => StepV::OpenPort { port: toks[1], baud: b },
            Err(e) => StepV::Respond(error_text(baud_error_text(e))),
        }
    }
}

/// How a text frame is dispatched: split on single spaces, route on the
/// first token. A blank frame splits into one empty token, which no
/// command matches, so it draws the unsupported-command error.
pub open spec fn dispatch_text(s: ConnState, t: Seq<char>) -> (ConnState, StepV) {
    let toks = split_on_space(t);
    let cmd = toks[0];
    if cmd == "STATUS"@ {
        (s, StepV::Respond(status_text(s)))
    } else if cmd == "DISCONNECT"@ {
        (ConnState::Disconnected, StepV::Respond("OK: DOWN"@))
    } else if cmd == "LIST"@ {
        (s, StepV::QueryPorts)
    } else if cmd == "CONNECT"@ {
        (s, connect_step(toks))
    } else {
        (s, StepV::Respond(error_text("Unsupported command"@)))
    }
}

/// The full dispatch relation: next state and required step for every
/// inbound frame in every state.
pub open spec fn dispatch(s: ConnState, m: MsgV) -> (ConnState, StepV) {
    match m {
        MsgV::Close => (s, StepV::CloseSession),
        MsgV::Ping(p) => (s, StepV::Pong(p)),
        MsgV::Pong(_) => (s, StepV::Nothing),
        MsgV::Other => (s, StepV::Nothing),
        MsgV::Binary(d) => if s is Connected {
            (s, StepV::WriteDevice(d))
        } else {
            (s, StepV::Respond(error_text("Disconnected"@)))
        },
        MsgV::Text(t) => dispatch_text(s, t),
    }
}

/// One iteration of the poll cycle, decided from the device's answers.
#[derive(Debug, PartialEq, Eq)]
pub enum PollStep {
    /// Nothing (more) to drain this cycle.
    Stop,
    /// Bytes are available: read a chunk and hand it to `poll_read`.
    ReadChunk,
    /// Forward these bytes as one outbound binary frame.
    Emit(Vec<u8>),
    /// A read failed: send this error response and abort the cycle.
    Abort(String),
}

impl Bridge {
    pub fn new() -> (b: Bridge)
        ensures
            b.state is Disconnected,
    {
        Bridge { state: ConnState::Disconnected }
    }

    pub fn is_connected(&self) -> (r: bool)
        ensures
            r == (self.state is Connected),
    {
        match self.state {
            ConnState::Connected => true,
            ConnState::Disconnected => false,
        }
    }

    /// The `STATUS` response for the current state: a pure read.
    pub fn status_line(&self) -> (resp: String)
        ensures
            resp@ == status_text(self.state),
    {
        match self.state {
            ConnState::Connected => String::from_str("OK: UP"),
            ConnState::Disconnected => String::from_str("OK: DOWN"),
        }
    }

    /// `DISCONNECT`: always succeeds and always leaves the bridge down,
    /// so it is idempotent. The caller closes its handle, if it held one.
    pub fn disconnect(&mut self) -> (resp: String)
        ensures
            final(self).state is Disconnected,
            resp@ == "OK: DOWN"@,
    {
        self.state = ConnState::Disconnected;
        String::from_str("OK: DOWN")
    }

    /// Records the outcome of the device open requested by an `OpenPort`
    /// step: success connects, failure resets to disconnected and reports
    /// the failure description.
    pub fn apply_open_result(&mut self, res: Result<(), String>) -> (resp: String)
        ensures
            res is Ok ==> final(self).state is Connected && resp@ == "OK: UP"@,
            res matches Err(e) ==> final(self).state is Disconnected && resp@ == error_text(
                e@,
            ),
    {
        match res {
            Ok(()) => {
                self.state = ConnState::Connected;
                String::from_str("OK: UP")
            },
            Err(e) => {
                self.state = ConnState::Disconnected;
                error_response(e.as_str())
            },
        }
    }

    /// Turns the outcome of a device write into at most one error
    /// response. The connection state is deliberately left as it is: only
    /// an explicit `DISCONNECT` or a failed open tears it down.
    pub fn write_result(&self, res: Result<(), String>) -> (r: Option<String>)
        ensures
            res is Ok ==> r is None,
            res matches Err(e) ==> r matches Some(m) && m@ == error_text(e@),
    {
        match res {
            Ok(()) => None,
            Err(e) => Some(error_response(e.as_str())),
        }
    }

    /// Dispatches one inbound frame: the returned step is what the caller
    /// must do, and the state moves exactly as `dispatch` says.
    pub fn handle(&mut self, msg: Message) -> (step: Step)
        ensures
            (final(self).state, step@) == dispatch(old(self).state, msg@),
    {
        match msg {
            Message::Close => Step::CloseSession,
            Message::Ping(p) => Step::Pong(p),
            Message::Pong(_p) => Step::Nothing,
            Message::Other => Step::Nothing,
            Message::Binary(d) => {
                if self.is_connected() {
                    Step::WriteDevice(d)
                } else {
                    Step::Respond(error_response("Disconnected"))
                }
            },
            Message::Text(t) => self.handle_text(t),
        }
    }

    fn handle_text(&mut self, text: String) -> (step: Step)
        ensures
            (final(self).state, step@) == dispatch_text(old(self).state, text@),
    {
        let toks = split_spaces(text.as_str());
        proof {
            assert(views_of(toks@)[0] == toks@[0]@);
        }
        let cmd = &toks[0];
        if str_eq(cmd.as_str(), "STATUS") {
            Step::Respond(self.status_line())
        } else if str_eq(cmd.as_str(), "DISCONNECT") {
            let resp = self.disconnect();
            Step::Respond(resp)
        } else if str_eq(cmd.as_str(), "LIST") {
            Step::QueryPorts
        } else if str_eq(cmd.as_str(), "CONNECT") {
            connect_command(&toks)
        } else {
            Step::Respond(error_response("Unsupported command"))
        }
    }

    /// Decides one "bytes available" answer within a poll cycle: drain
    /// only while connected and while the device reports pending bytes;
    /// an errored availability query ends the cycle quietly.
    pub fn poll_avail(&self, avail: Result<usize, String>) -> (step: PollStep)
        ensures
            self.state is Disconnected ==> step is Stop,
            self.state is Connected ==> (match avail {
                Ok(n) => if n == 0 {
                    step is Stop
                } else {
                    step is ReadChunk
                },
                Err(_) => step is Stop,
            }),
    {
        match self.state {
            ConnState::Disconnected => PollStep::Stop,
            ConnState::Connected => match avail {
                Ok(n) => {
                    if n == 0 {
                        PollStep::Stop
                    } else {
                        PollStep::ReadChunk
                    }
                },
                Err(_) => PollStep::Stop,
            },
        }
    }

    /// Decides one read outcome within a poll cycle: bytes read are
    /// forwarded verbatim as one binary frame; a read error becomes one
    /// error response and aborts the cycle without disconnecting.
    pub fn poll_read(&self, res: Result<Vec<u8>, String>) -> (step: PollStep)
        ensures
            self.state is Disconnected ==> step is Stop,
            self.state is Connected ==> (match res {
                Ok(chunk) => step == PollStep::Emit(chunk),
                Err(e) => step matches PollStep::Abort(m) && m@ == error_text(e@),
            }),
    {
        match self.state {
            ConnState::Disconnected => PollStep::Stop,
            ConnState::Connected => match res {
                Ok(chunk) => PollStep::Emit(chunk),
                Err(e) => PollStep::Abort(error_response(e.as_str())),
            },
        }
    }
}

/// Routes a tokenized `CONNECT` line: the port name is required, the baud
/// rate optional with `DEFAULT_BAUD` as the default.
fn connect_command(toks: &Vec<String>) -> (step: Step)
    requires
        toks@.len() >= 1,
    ensures
        step@ == connect_step(views_of(toks@)),
{
    proof {
        assert(views_of(toks@).len() == toks@.len());
    }
    if toks.len() < 2 {
        return Step::Respond(error_response("Port is required"));
    }
    let parsed: Result<u32, BaudError> = if toks.len() >= 3 {
        proof {
            assert(views_of(toks@)[2] == toks@[2]@);
        }
        parse_u32(toks[2].as_str())
    } else {
        Ok(DEFAULT_BAUD)
    };
    match parsed {
        Ok(b) => {
            proof {
                assert(views_of(toks@)[1] == toks@[1]@);
            }
            Step::OpenPort { port: toks[1].clone(), baud: b }
        },
        Err(e) => {
            let m = baud_error_message(&e);
            Step::Respond(error_response(m.as_str()))
        },
    }
}

} // verus!
