//! What the generator knows of a connection while it handles one segment.

use crate::headers::{MacHeader, SocketAddr};
use vstd::prelude::*;

verus! {

/// The states of one side of a connection that the generator tells apart or enters.
#[derive(Clone, Copy, Debug, PartialEq, Eq, Structural)]
pub enum TcpState {
    Closed,
    SynSent,
    SynReceived,
    Established,
    LastAck,
    /// Any other state.
    Other,
}

/// The last state of one side of a connection.
#[derive(Clone, Copy, Debug, PartialEq, Eq, Structural)]
pub struct SideState {
    pub state: TcpState,
    /// The state is FIN-WAIT-1 or comes after it in the order of states that the
    /// owner of the connection keeps.
    pub fin_wait_1_or_later: bool,
}

/// Why a connection is released.
#[derive(Clone, Copy, Debug, PartialEq, Eq, Structural)]
pub enum ReleaseCause {
    FinServer,
    RstServer,
}

/// One entry to be made in the record of a connection.
#[derive(Clone, Copy, Debug, PartialEq, Eq, Structural)]
pub enum RecordOp {
    /// The client side enters a state.
    PushCState(TcpState),
    /// The server side enters a state.
    PushSState(TcpState),
    /// The client side is established.
    CEstablished,
    /// The server side is established.
    SEstablished,
    /// The connection is released for the given cause.
    CReleased(ReleaseCause),
}

/// The record of a connection: what it held when the segment came in, and the
/// entries that the segment adds, oldest first.
#[derive(Debug)]
pub struct ConRecord {
    pub server_index: usize,
    /// Last state of the client side when the segment came in.
    pub c_state: SideState,
    /// Last state of the server side when the segment came in.
    pub s_state: SideState,
    pub ops: Vec<RecordOp>,
}

/// A connection.
#[derive(Debug)]
pub struct Connection {
    /// The local port, which identifies the connection.
    pub port: u16,
    pub con_rec: ConRecord,
    /// Next sequence number that the client side sends.
    pub c_seqn_nxt: u32,
    /// Next sequence number that the client side expects.
    pub c_ackn_nxt: u32,
    /// Last sequence number that the server side sent.
    pub s_seqn: u32,
    /// Ethernet header of the peer's SYN, once the segment set it.
    pub dut_mac: Option<MacHeader>,
    /// Socket of the peer's SYN, once the segment set it.
    pub dut_sock: Option<SocketAddr>,
}

/// The contents of a [`Connection`].
#[verifier::ext_equal]
pub struct ConnectionView {
    pub port: u16,
    pub server_index: usize,
    pub c_state: SideState,
    pub s_state: SideState,
    pub ops: Seq<RecordOp>,
    pub c_seqn_nxt: u32,
    pub c_ackn_nxt: u32,
    pub s_seqn: u32,
    pub dut_mac: Option<MacHeader>,
    pub dut_sock: Option<SocketAddr>,
}

impl View for Connection {
    type V = ConnectionView;

    open spec fn view(&self) -> ConnectionView {
        ConnectionView {
            port: self.port,
            server_index: self.con_rec.server_index,
            c_state: self.con_rec.c_state,
            s_state: self.con_rec.s_state,
            ops: self.con_rec.ops@,
            c_seqn_nxt: self.c_seqn_nxt,
            c_ackn_nxt: self.c_ackn_nxt,
            s_seqn: self.s_seqn,
            dut_mac: self.dut_mac,
            dut_sock: self.dut_sock,
        }
    }
}

impl ConnectionView {
    /// The connection with one more entry in its record.
    pub open spec fn noted(self, op: RecordOp) -> ConnectionView {
        ConnectionView { ops: self.ops.push(op), ..self }
    }
}

impl Connection {
    /// Enters a state on the client side.
    pub fn push_c_state(&mut self, state: TcpState)
        ensures
            final(self)@ == old(self)@.noted(RecordOp::PushCState(state)),
    {
        self.con_rec.ops.push(RecordOp::PushCState(state));
    }

    /// Enters a state on the server side.
    pub fn push_s_state(&mut self, state: TcpState)
        ensures
            final(self)@ == old(self)@.noted(RecordOp::PushSState(state)),
    {
        self.con_rec.ops.push(RecordOp::PushSState(state));
    }

    /// Notes that the client side is established.
    pub fn c_con_established(&mut self)
        ensures
            final(self)@ == old(self)@.noted(RecordOp::CEstablished),
    {
        self.con_rec.ops.push(RecordOp::CEstablished);
    }

    /// Notes that the server side is established.
    pub fn s_con_established(&mut self)
        ensures
            final(self)@ == old(self)@.noted(RecordOp::SEstablished),
    {
        self.con_rec.ops.push(RecordOp::SEstablished);
    }

    /// Notes the release and its cause.
    pub fn c_released(&mut self, cause: ReleaseCause)
        ensures
            final(self)@ == old(self)@.noted(RecordOp::CReleased(cause)),
    {
        self.con_rec.ops.push(RecordOp::CReleased(cause));
    }
}

} // verus!
