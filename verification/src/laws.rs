//! The bridge's laws, proved once and for all from the dispatch
//! specification: what each command answers in each state, that nothing
//! ever touches a device while disconnected, and that the heartbeat
//! closes only silent sessions.

use vstd::prelude::*;

use crate::bridge::dispatch;
use crate::bridge::dispatch_text;
use crate::bridge::DEFAULT_BAUD;
use crate::bridge::status_text;
use crate::bridge::ConnState;
use crate::bridge::MsgV;
use crate::bridge::StepV;
use crate::heartbeat::timed_out;
use crate::protocol::baud_error_text;
use crate::protocol::error_text;
use crate::protocol::join_spaces;
use crate::protocol::lemma_split_no_space;
use crate::protocol::parse_u32_spec;
use crate::protocol::split_on_space;
use crate::protocol::BaudError;

verus! {

/// `STATUS` is a pure read: it answers "OK: UP" exactly while connected
/// and "OK: DOWN" exactly while disconnected, and never moves the state.
/// Together with `apply_open_result`, this is how the outcome of every
/// `CONNECT` shows up: a successful open is followed by "OK: UP", a
/// failed one by "OK: DOWN".
pub proof fn lemma_status_reports_state(s: ConnState, t: Seq<char>)
    requires
        split_on_space(t)[0] == "STATUS"@,
    ensures
        dispatch_text(s, t) == (s, StepV::Respond(status_text(s))),
        s is Connected ==> status_text(s) == "OK: UP"@,
        s is Disconnected ==> status_text(s) == "OK: DOWN"@,
{
}

/// A well-formed `CONNECT` never moves the state itself: it only asks
/// for the named port to be opened. The connection comes up or goes down
/// with the open's outcome alone, recorded by `apply_open_result`.
pub proof fn lemma_connect_only_requests_open(s: ConnState, t: Seq<char>, b: u32)
    requires
        split_on_space(t)[0] == "CONNECT"@,
        split_on_space(t).len() >= 2,
        split_on_space(t).len() >= 3 ==> parse_u32_spec(split_on_space(t)[2]) == Ok::<
            u32,
            BaudError,
        >(b),
    ensures
        dispatch_text(s, t).0 == s,
        ({
            &&& dispatch_text(s, t).1 matches StepV::OpenPort { port, baud }
            &&& port == split_on_space(t)[1]
            &&& (split_on_space(t).len() >= 3 ==> baud == b)
            &&& (split_on_space(t).len() == 2 ==> baud == DEFAULT_BAUD)
        }),
{
    reveal_strlit("STATUS");
    reveal_strlit("DISCONNECT");
    reveal_strlit("LIST");
    reveal_strlit("CONNECT");
    assert("CONNECT"@.len() != "STATUS"@.len());
    assert("CONNECT"@.len() != "DISCONNECT"@.len());
    assert("CONNECT"@.len() != "LIST"@.len());
}

/// A `CONNECT` whose baud rate does not parse reports the parse failure
/// and leaves an existing connection untouched: only a failed open tears
/// the state down, never a bad argument.
pub proof fn lemma_bad_baud_keeps_connection(s: ConnState, t: Seq<char>, e: BaudError)
    requires
        split_on_space(t)[0] == "CONNECT"@,
        split_on_space(t).len() >= 3,
        parse_u32_spec(split_on_space(t)[2]) == Err::<u32, BaudError>(e),
    ensures
        dispatch_text(s, t) == (s, StepV::Respond(error_text(baud_error_text(e)))),
{
    reveal_strlit("STATUS");
    reveal_strlit("DISCONNECT");
    reveal_strlit("LIST");
    reveal_strlit("CONNECT");
    assert("CONNECT"@.len() != "STATUS"@.len());
    assert("CONNECT"@.len() != "DISCONNECT"@.len());
    assert("CONNECT"@.len() != "LIST"@.len());
}

/// `DISCONNECT` is idempotent: in every state it answers exactly
/// "OK: DOWN" and leaves the bridge down, so repeating it changes
/// nothing and never produces an error.
pub proof fn lemma_disconnect_idempotent(s: ConnState, t: Seq<char>)
    requires
        split_on_space(t)[0] == "DISCONNECT"@,
    ensures
        dispatch_text(s, t) == (ConnState::Disconnected, StepV::Respond("OK: DOWN"@)),
        dispatch_text(dispatch_text(s, t).0, t) == dispatch_text(s, t),
{
    reveal_strlit("STATUS");
    reveal_strlit("DISCONNECT");
    assert("DISCONNECT"@.len() != "STATUS"@.len());
}

/// `LIST` is answered in every state by querying the adapter and never
/// by an error, and an adapter that reports no ports at all yields the
/// bare response `LIST: `.
pub proof fn lemma_list_never_fails(s: ConnState, t: Seq<char>)
    requires
        split_on_space(t)[0] == "LIST"@,
    ensures
        dispatch_text(s, t) == (s, StepV::QueryPorts),
        "LIST: "@ + join_spaces(Seq::<Seq<char>>::empty()) == "LIST: "@,
{
    reveal_strlit("STATUS");
    reveal_strlit("DISCONNECT");
    reveal_strlit("LIST");
    assert("LIST"@.len() != "STATUS"@.len());
    assert("LIST"@.len() != "DISCONNECT"@.len());
    assert("LIST: "@ + join_spaces(Seq::<Seq<char>>::empty()) =~= "LIST: "@);
}

/// While disconnected, no inbound frame asks for a device write; a
/// binary frame draws exactly the "Disconnected" error instead, so the
/// payload never reaches the adapter.
pub proof fn lemma_no_write_while_down(m: MsgV)
    ensures
        !(dispatch(ConnState::Disconnected, m).1 is WriteDevice),
        m matches MsgV::Binary(d) ==> dispatch(ConnState::Disconnected, m) == (
            ConnState::Disconnected,
            StepV::Respond(error_text("Disconnected"@)),
        ),
{
}

/// While connected, a binary frame asks for exactly one device write
/// carrying the payload bytes unmodified and in their original order.
pub proof fn lemma_blob_written_verbatim(d: Seq<u8>)
    ensures
        dispatch(ConnState::Connected, MsgV::Binary(d)) == (
            ConnState::Connected,
            StepV::WriteDevice(d),
        ),
{
}

/// The exact exchange on the wire for the three bare commands: in any
/// state, the frame `DISCONNECT` answers `OK: DOWN` and leaves the
/// bridge down; the frame `STATUS` answers the state and keeps it; the
/// frame `LIST` asks for the port query and keeps it.
pub proof fn lemma_bare_command_frames(s: ConnState)
    ensures
        dispatch(s, MsgV::Text("DISCONNECT"@)) == (
            ConnState::Disconnected,
            StepV::Respond("OK: DOWN"@),
        ),
        dispatch(s, MsgV::Text("STATUS"@)) == (s, StepV::Respond(status_text(s))),
        dispatch(s, MsgV::Text("LIST"@)) == (s, StepV::QueryPorts),
{
    reveal_strlit("DISCONNECT");
    reveal_strlit("STATUS");
    reveal_strlit("LIST");
    assert forall|i: int| 0 <= i < "DISCONNECT"@.len() implies "DISCONNECT"@[i] != ' ' by {
        reveal_strlit("DISCONNECT");
    }
    assert forall|i: int| 0 <= i < "STATUS"@.len() implies "STATUS"@[i] != ' ' by {
        reveal_strlit("STATUS");
    }
    assert forall|i: int| 0 <= i < "LIST"@.len() implies "LIST"@[i] != ' ' by {
        reveal_strlit("LIST");
    }
    lemma_split_no_space("DISCONNECT"@);
    lemma_split_no_space("STATUS"@);
    lemma_split_no_space("LIST"@);
    lemma_disconnect_idempotent(s, "DISCONNECT"@);
    lemma_status_reports_state(s, "STATUS"@);
    lemma_list_never_fails(s, "LIST"@);
}

/// The serialized operations that can reach the connection state, in the
/// order the session's mutual exclusion grants them: a delivered frame,
/// or the recorded outcome of a requested open.
pub enum BridgeOp {
    Deliver(MsgV),
    OpenOk,
    OpenFailed(Seq<char>),
}

/// The state one operation leaves behind.
pub open spec fn op_state(s: ConnState, op: BridgeOp) -> ConnState {
    match op {
        BridgeOp::Deliver(m) => dispatch(s, m).0,
        BridgeOp::OpenOk => ConnState::Connected,
        BridgeOp::OpenFailed(_) => ConnState::Disconnected,
    }
}

/// The state a whole serialized history of operations leaves behind.
pub open spec fn run_ops(s: ConnState, ops: Seq<BridgeOp>) -> ConnState
    decreases ops.len(),
{
    if ops.len() == 0 {
        s
    } else {
        run_ops(op_state(s, ops[0]), ops.subrange(1, ops.len() as int))
    }
}

/// No use after close: once the bridge is down, no serialized history
/// without a successful open brings it up again — and while down, no
/// dispatched frame asks for a device write and every poll decision
/// stops, so a handle closed by one operation is never used by a later
/// one.
pub proof fn lemma_no_use_after_close(ops: Seq<BridgeOp>)
    requires
        forall|i: int| 0 <= i < ops.len() ==> !(ops[i] is OpenOk),
    ensures
        run_ops(ConnState::Disconnected, ops) is Disconnected,
    decreases ops.len(),
{
    if ops.len() > 0 {
        assert(op_state(ConnState::Disconnected, ops[0]) is Disconnected);
        let rest = ops.subrange(1, ops.len() as int);
        assert(forall|i: int| 0 <= i < rest.len() ==> rest[i] == ops[i + 1]);
        lemma_no_use_after_close(rest);
    }
}

/// The heartbeat closes only silent sessions: a client heard from at
/// `touched` and probed at `probe` is closed exactly when its silence
/// exceeded the window, and pinged — never closed — otherwise.
pub proof fn lemma_heartbeat_closes_only_idle(touched: u64, probe: u64, timeout: u64)
    requires
        touched <= probe,
    ensures
        timed_out(touched, probe, timeout) <==> probe - touched > timeout,
        probe - touched <= timeout ==> !timed_out(touched, probe, timeout),
{
}

} // verus!
