//! The server side: segments that reach the port on which the generator listens.

use crate::connection::{
    Connection, ConnectionView, RecordOp, ReleaseCause, SideState, TcpState,
};
use crate::counter::{TcpControls, TcpCounter};
use crate::headers::{make_reply_packet, HeaderState, TcpHeader};
use crate::packet::{self, Packet, PacketView};
use crate::segments::{self, syn_received};
use crate::seqnum;
use crate::verdict::{Verdict, DUMP, TO_PCI};
use vstd::prelude::*;

verus! {

/// What a segment means to the server side of a connection.
#[derive(Clone, Copy, Debug, PartialEq, Eq, Structural)]
pub enum ServerEvent {
    /// The peer opens the connection.
    Syn,
    /// A SYN on a connection that is not closed.
    UnexpectedSyn,
    /// The peer acknowledges the SYN-ACK.
    Established,
    /// The peer answers a FIN that was sent to it.
    FinReply,
    /// The peer closes the connection.
    Fin,
    /// The peer resets the connection.
    Rst,
    /// The peer acknowledges the answer to its FIN.
    FinalAck,
    /// Nothing of the above.
    Other,
}

/// What a segment with the header `tcp` means in the state `s` of the server side.
pub open spec fn server_event(tcp: TcpHeader, s: SideState) -> ServerEvent {
    if tcp.syn && s.state == TcpState::Closed {
        ServerEvent::Syn
    } else if tcp.syn {
        ServerEvent::UnexpectedSyn
    } else if tcp.ack && s.state == TcpState::SynReceived {
        ServerEvent::Established
    } else if tcp.fin && s.fin_wait_1_or_later {
        ServerEvent::FinReply
    } else if tcp.fin {
        ServerEvent::Fin
    } else if tcp.rst {
        ServerEvent::Rst
    } else if tcp.ack && s.state == TcpState::LastAck {
        ServerEvent::FinalAck
    } else {
        ServerEvent::Other
    }
}

/// What is counted for each event.
pub open spec fn server_counts(event: ServerEvent) -> Set<TcpControls> {
    match event {
        ServerEvent::Syn => set![TcpControls::SentSynAck],
        ServerEvent::Established => set![TcpControls::RecvSynAck2],
        ServerEvent::FinReply => set![TcpControls::RecvFinAck],
        ServerEvent::Fin => set![TcpControls::RecvFin, TcpControls::SentFinAck],
        ServerEvent::Rst => set![TcpControls::RecvRst],
        ServerEvent::FinalAck => set![TcpControls::RecvFinAck2],
        _ => Set::empty(),
    }
}

/// What becomes of the frame and of the connection on `port`.
pub open spec fn server_verdict(event: ServerEvent, port: u16) -> Verdict {
    Verdict {
        group: match event {
            ServerEvent::Syn | ServerEvent::Fin => TO_PCI,
            _ => DUMP,
        },
        release: match event {
            ServerEvent::Rst | ServerEvent::FinalAck => Some(port),
            _ => None,
        },
        ready: None,
    }
}

/// The headers of the answer to a FIN, sent with the sequence number `seqn`.
pub open spec fn fin_ack_headers(h: HeaderState, seqn: u32) -> HeaderState {
    let r = h.reply();
    HeaderState { tcp: TcpHeader { seq_num: seqn, ..r.tcp }, ..r }
}

/// The headers after the event; `n` SYNs were received so far.
pub open spec fn server_headers(
    event: ServerEvent,
    h: HeaderState,
    c: ConnectionView,
    n: nat,
) -> HeaderState {
    match event {
        ServerEvent::Syn => segments::syn_ack_headers(h, n),
        ServerEvent::Fin => fin_ack_headers(h, seqnum::seqn_after(c.s_seqn, 1)),
        _ => h,
    }
}

/// The frame after the event; `n` SYNs were received so far.
pub open spec fn server_frame(
    event: ServerEvent,
    p: PacketView,
    h: HeaderState,
    n: nat,
) -> PacketView {
    match event {
        ServerEvent::Syn => segments::syn_ack_frame(p, h, n),
        ServerEvent::Fin => p.checksummed(h.reply().ip),
        _ => p,
    }
}

/// The connection after the event; `n` SYNs were received so far.
pub open spec fn server_connection(
    event: ServerEvent,
    c: ConnectionView,
    h: HeaderState,
    n: nat,
) -> ConnectionView {
    match event {
        ServerEvent::Syn => segments::syn_received_by(c, h, n),
        ServerEvent::Established => c.noted(RecordOp::SEstablished),
        ServerEvent::FinReply => c.noted(RecordOp::PushSState(TcpState::Closed)),
        ServerEvent::Fin => ConnectionView {
            s_seqn: seqnum::seqn_after(c.s_seqn, 1),
            ..c.noted(RecordOp::CReleased(ReleaseCause::FinServer)).noted(
                RecordOp::PushSState(TcpState::LastAck),
            )
        },
        ServerEvent::Rst => c.noted(RecordOp::PushSState(TcpState::Closed)).noted(
            RecordOp::CReleased(ReleaseCause::RstServer),
        ),
        ServerEvent::FinalAck => c.noted(RecordOp::PushSState(TcpState::Closed)).noted(
            RecordOp::CReleased(ReleaseCause::FinServer),
        ),
        _ => c,
    }
}

/// Finds out what a segment means to the server side.
pub fn classify_server(tcp: &TcpHeader, s: &SideState) -> (r: ServerEvent)
    ensures
        r == server_event(*tcp, *s),
{
    if tcp.syn {
        if s.state == TcpState::Closed {
            ServerEvent::Syn
        } else {
            ServerEvent::UnexpectedSyn
        }
    } else if tcp.ack && s.state == TcpState::SynReceived {
        ServerEvent::Established
    } else if tcp.fin {
        if s.fin_wait_1_or_later {
            ServerEvent::FinReply
        } else {
            ServerEvent::Fin
        }
    } else if tcp.rst {
        ServerEvent::Rst
    } else if s.state == TcpState::LastAck && tcp.ack {
        ServerEvent::FinalAck
    } else {
        ServerEvent::Other
    }
}

/// Tests whether the event can be counted.
pub fn server_has_room(counter: &TcpCounter, event: ServerEvent) -> (r: bool)
    ensures
        r == counter.has_room(server_counts(event)),
{
    match event {
        ServerEvent::Syn => counter.has_room_for(TcpControls::SentSynAck),
        ServerEvent::Established => counter.has_room_for(TcpControls::RecvSynAck2),
        ServerEvent::FinReply => counter.has_room_for(TcpControls::RecvFinAck),
        ServerEvent::Fin => counter.has_room_for(TcpControls::RecvFin) && counter.has_room_for(
            TcpControls::SentFinAck,
        ),
        ServerEvent::Rst => counter.has_room_for(TcpControls::RecvRst),
        ServerEvent::FinalAck => counter.has_room_for(TcpControls::RecvFinAck2),
        ServerEvent::UnexpectedSyn | ServerEvent::Other => true,
    }
}

/// Handles a segment to the server side of the connection `c`. `counter` counts what
/// the server side sent and received; a SYN is already counted as received.
pub fn server_segment(
    p: &mut Packet,
    c: &mut Connection,
    h: &mut HeaderState,
    counter: &mut TcpCounter,
) -> (r: Verdict)
    requires
        old(counter).has_room(server_counts(server_event(old(h).tcp, old(c)@.s_state))),
        server_event(old(h).tcp, old(c)@.s_state) == ServerEvent::Syn
            ==> packet::options_removable(old(p).data_len as int, *old(h)),
    ensures
        ({
            let event = server_event(old(h).tcp, old(c)@.s_state);
            let n = old(counter).count(TcpControls::RecvSyn);
            &&& r == server_verdict(event, old(c).port)
            &&& final(counter).counts_up(*old(counter), server_counts(event))
            &&& *final(h) == server_headers(event, *old(h), old(c)@, n)
            &&& final(p)@ == server_frame(event, old(p)@, *old(h), n)
            &&& final(c)@ == server_connection(event, old(c)@, *old(h), n)
        }),
{
    let event = classify_server(&h.tcp, &c.con_rec.s_state);
    let mut group: usize = DUMP;
    let mut release: Option<u16> = None;
    match event {
        ServerEvent::Syn => {
            syn_received(p, c, h, counter.recv_syn);
            counter.bump(TcpControls::SentSynAck);
            group = TO_PCI;
        },
        ServerEvent::Established => {
            c.s_con_established();
            counter.bump(TcpControls::RecvSynAck2);
        },
        ServerEvent::FinReply => {
            counter.bump(TcpControls::RecvFinAck);
            c.push_s_state(TcpState::Closed);
        },
        ServerEvent::Fin => {
            c.c_released(ReleaseCause::FinServer);
            counter.bump(TcpControls::RecvFin);
            c.push_s_state(TcpState::LastAck);
            make_reply_packet(h);
            c.s_seqn = seqnum::advance(c.s_seqn, 1);
            h.tcp.seq_num = c.s_seqn;
            p.update_tcp_checksum(&h.ip);
            counter.bump(TcpControls::SentFinAck);
            group = TO_PCI;
        },
        ServerEvent::Rst => {
            counter.bump(TcpControls::RecvRst);
            c.push_s_state(TcpState::Closed);
            c.c_released(ReleaseCause::RstServer);
            release = Some(c.port);
        },
        ServerEvent::FinalAck => {
            counter.bump(TcpControls::RecvFinAck2);
            c.push_s_state(TcpState::Closed);
            c.c_released(ReleaseCause::FinServer);
            release = Some(c.port);
        },
        ServerEvent::UnexpectedSyn | ServerEvent::Other => {},
    }
    Verdict { group, release, ready: None }
}

} // verus!
