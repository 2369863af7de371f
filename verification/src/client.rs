//! The client side: segments that reach the port of a connection the generator opened.

use crate::connection::{
    Connection, ConnectionView, RecordOp, ReleaseCause, TcpState,
};
use crate::counter::{TcpControls, TcpCounter};
use crate::headers::{make_reply_packet, HeaderState, TcpHeader};
use crate::packet::{Packet, PacketView};
use crate::segments::{self, synack_received};
use crate::server;
use crate::verdict::{Verdict, DUMP, TO_KNI, TO_PCI};
use vstd::prelude::*;

verus! {

/// What a segment means to the client side of a connection.
#[derive(Clone, Copy, Debug, PartialEq, Eq, Structural)]
pub enum ClientEvent {
    /// The segment does not carry the next sequence number.
    WrongSeqn,
    /// The server accepts the connection.
    SynAck,
    /// The server repeats the SYN-ACK of an established connection.
    SynAckAgain,
    /// A SYN-ACK in any other state.
    UnexpectedSynAck,
    /// The server answers a FIN that was sent to it.
    FinReply,
    /// The server closes the connection.
    Fin,
    /// The server resets the connection.
    Rst,
    /// The server acknowledges the answer to its FIN.
    FinalAck,
    /// Any other ACK.
    Ack,
    /// Nothing of the above.
    Unexpected,
}

/// What a segment with the header `tcp` means to the client side of `c`. Only a
/// connection whose SYN was not answered yet takes any sequence number.
pub open spec fn client_event(tcp: TcpHeader, c: ConnectionView) -> ClientEvent {
    let state = c.c_state.state;
    if state != TcpState::SynSent && tcp.seq_num != c.c_ackn_nxt {
        ClientEvent::WrongSeqn
    } else if tcp.ack && tcp.syn {
        if state == TcpState::SynSent {
            ClientEvent::SynAck
        } else if state == TcpState::Established {
            ClientEvent::SynAckAgain
        } else {
            ClientEvent::UnexpectedSynAck
        }
    } else if tcp.fin {
        if c.c_state.fin_wait_1_or_later {
            ClientEvent::FinReply
        } else {
            ClientEvent::Fin
        }
    } else if tcp.rst {
        ClientEvent::Rst
    } else if tcp.ack {
        if state == TcpState::LastAck {
            ClientEvent::FinalAck
        } else {
            ClientEvent::Ack
        }
    } else {
        ClientEvent::Unexpected
    }
}

/// What is counted for each event.
pub open spec fn client_counts(event: ClientEvent) -> Set<TcpControls> {
    match event {
        ClientEvent::SynAck | ClientEvent::SynAckAgain => set![
            TcpControls::RecvSynAck,
            TcpControls::SentAck,
        ],
        ClientEvent::UnexpectedSynAck => set![TcpControls::RecvSynAck],
        ClientEvent::FinReply => set![TcpControls::RecvFinAck],
        ClientEvent::Fin => set![TcpControls::RecvFin, TcpControls::SentFinAck],
        ClientEvent::Rst => set![TcpControls::RecvRst],
        ClientEvent::FinalAck => set![TcpControls::RecvFinAck2],
        ClientEvent::Unexpected => set![TcpControls::Unexpected],
        ClientEvent::WrongSeqn | ClientEvent::Ack => Set::empty(),
    }
}

/// What becomes of the frame and of the connection on `port`.
pub open spec fn client_verdict(event: ClientEvent, port: u16) -> Verdict {
    Verdict {
        group: match event {
            ClientEvent::SynAck | ClientEvent::SynAckAgain | ClientEvent::Fin => TO_PCI,
            ClientEvent::WrongSeqn | ClientEvent::Unexpected => TO_KNI,
            _ => DUMP,
        },
        release: match event {
            ClientEvent::Rst | ClientEvent::FinalAck => Some(port),
            _ => None,
        },
        ready: match event {
            ClientEvent::SynAck => Some(port),
            _ => None,
        },
    }
}

/// The headers after the event.
pub open spec fn client_headers(
    event: ClientEvent,
    h: HeaderState,
    c: ConnectionView,
) -> HeaderState {
    match event {
        ClientEvent::SynAck | ClientEvent::SynAckAgain => segments::ack_headers(h, c),
        ClientEvent::Fin => server::fin_ack_headers(h, c.c_seqn_nxt),
        _ => h,
    }
}

/// The frame after the event.
pub open spec fn client_frame(event: ClientEvent, p: PacketView, h: HeaderState) -> PacketView {
    match event {
        ClientEvent::SynAck | ClientEvent::SynAckAgain | ClientEvent::Fin => p.checksummed(
            h.reply().ip,
        ),
        _ => p,
    }
}

/// The connection after the event.
pub open spec fn client_connection(
    event: ClientEvent,
    c: ConnectionView,
    h: HeaderState,
) -> ConnectionView {
    match event {
        ClientEvent::SynAck => segments::acknowledged(c.noted(RecordOp::CEstablished), h),
        ClientEvent::SynAckAgain => segments::acknowledged(c, h),
        ClientEvent::FinReply => c.noted(RecordOp::PushCState(TcpState::Closed)),
        ClientEvent::Fin => segments::acknowledged(
            c.noted(RecordOp::PushCState(TcpState::LastAck)),
            h,
        ),
        ClientEvent::Rst => c.noted(RecordOp::PushCState(TcpState::Closed)).noted(
            RecordOp::CReleased(ReleaseCause::RstServer),
        ),
        ClientEvent::FinalAck => c.noted(RecordOp::PushCState(TcpState::Closed)).noted(
            RecordOp::CReleased(ReleaseCause::FinServer),
        ),
        _ => c,
    }
}

/// Finds out what a segment means to the client side.
pub fn classify_client(tcp: &TcpHeader, c: &Connection) -> (r: ClientEvent)
    ensures
        r == client_event(*tcp, c@),
{
    let state = c.con_rec.c_state.state;
    if state != TcpState::SynSent && tcp.seq_num != c.c_ackn_nxt {
        ClientEvent::WrongSeqn
    } else if tcp.ack && tcp.syn {
        if state == TcpState::SynSent {
            ClientEvent::SynAck
        } else if state == TcpState::Established {
            ClientEvent::SynAckAgain
        } else {
            ClientEvent::UnexpectedSynAck
        }
    } else if tcp.fin {
        if c.con_rec.c_state.fin_wait_1_or_later {
            ClientEvent::FinReply
        } else {
            ClientEvent::Fin
        }
    } else if tcp.rst {
        ClientEvent::Rst
    } else if state == TcpState::LastAck && tcp.ack {
        ClientEvent::FinalAck
    } else if tcp.ack {
        ClientEvent::Ack
    } else {
        ClientEvent::Unexpected
    }
}

/// Tests whether the event can be counted.
pub fn client_has_room(counter: &TcpCounter, event: ClientEvent) -> (r: bool)
    ensures
        r == counter.has_room(client_counts(event)),
{
    match event {
        ClientEvent::SynAck | ClientEvent::SynAckAgain => counter.has_room_for(
            TcpControls::RecvSynAck,
        ) && counter.has_room_for(TcpControls::SentAck),
        ClientEvent::UnexpectedSynAck => counter.has_room_for(TcpControls::RecvSynAck),
        ClientEvent::FinReply => counter.has_room_for(TcpControls::RecvFinAck),
        ClientEvent::Fin => counter.has_room_for(TcpControls::RecvFin) && counter.has_room_for(
            TcpControls::SentFinAck,
        ),
        ClientEvent::Rst => counter.has_room_for(TcpControls::RecvRst),
        ClientEvent::FinalAck => counter.has_room_for(TcpControls::RecvFinAck2),
        ClientEvent::Unexpected => counter.has_room_for(TcpControls::Unexpected),
        ClientEvent::WrongSeqn | ClientEvent::Ack => true,
    }
}

/// Handles a segment to the client side of the connection `c`. `counter` counts what
/// the client side sent and received.
pub fn client_segment(
    p: &mut Packet,
    c: &mut Connection,
    h: &mut HeaderState,
    counter: &mut TcpCounter,
) -> (r: Verdict)
    requires
        old(counter).has_room(client_counts(client_event(old(h).tcp, old(c)@))),
    ensures
        ({
            let event = client_event(old(h).tcp, old(c)@);
            &&& r == client_verdict(event, old(c).port)
            &&& final(counter).counts_up(*old(counter), client_counts(event))
            &&& *final(h) == client_headers(event, *old(h), old(c)@)
            &&& final(p)@ == client_frame(event, old(p)@, *old(h))
            &&& final(c)@ == client_connection(event, old(c)@, *old(h))
        }),
{
    let event = classify_client(&h.tcp, c);
    let mut group: usize = DUMP;
    let mut release: Option<u16> = None;
    let mut ready: Option<u16> = None;
    match event {
        ClientEvent::SynAck => {
            group = TO_PCI;
            counter.bump(TcpControls::RecvSynAck);
            c.c_con_established();
            ready = Some(c.port);
            synack_received(p, c, h);
            counter.bump(TcpControls::SentAck);
        },
        ClientEvent::SynAckAgain => {
            group = TO_PCI;
            counter.bump(TcpControls::RecvSynAck);
            synack_received(p, c, h);
            counter.bump(TcpControls::SentAck);
        },
        ClientEvent::UnexpectedSynAck => {
            counter.bump(TcpControls::RecvSynAck);
        },
        ClientEvent::FinReply => {
            counter.bump(TcpControls::RecvFinAck);
            c.push_c_state(TcpState::Closed);
        },
        ClientEvent::Fin => {
            counter.bump(TcpControls::RecvFin);
            c.push_c_state(TcpState::LastAck);
            make_reply_packet(h);
            c.c_ackn_nxt = h.tcp.ack_num;
            h.tcp.seq_num = c.c_seqn_nxt;
            counter.bump(TcpControls::SentFinAck);
            p.update_tcp_checksum(&h.ip);
            group = TO_PCI;
        },
        ClientEvent::Rst => {
            counter.bump(TcpControls::RecvRst);
            c.push_c_state(TcpState::Closed);
            c.c_released(ReleaseCause::RstServer);
            release = Some(c.port);
        },
        ClientEvent::FinalAck => {
            counter.bump(TcpControls::RecvFinAck2);
            c.push_c_state(TcpState::Closed);
            c.c_released(ReleaseCause::FinServer);
            release = Some(c.port);
        },
        ClientEvent::Ack => {},
        ClientEvent::Unexpected => {
            counter.bump(TcpControls::Unexpected);
            group = TO_KNI;
        },
        ClientEvent::WrongSeqn => {
            group = TO_KNI;
        },
    }
    Verdict { group, release, ready }
}

} // verus!
