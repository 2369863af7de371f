//! Laws of the client side: what comes of a segment to the port of a connection that the
//! pipeline opened.

use crate::client::{classify_client, ClientEvent};
use crate::connection::{Connection, RecordOp, ReleaseCause, TcpState};
use crate::counter::{TcpControls, TcpCounter};
use crate::engine::{Answer, Engine, Outcome};
use crate::headers::{HeaderState, SocketAddr, TcpHeader};
use crate::laws::frames;
use crate::packet::Packet;
use crate::verdict::Verdict;
use vstd::prelude::*;

verus! {

/// A segment out of sequence is nothing else, and only in SYN-SENT every segment is in
/// sequence. In sequence, a SYN-ACK goes before FIN, FIN before RST, and RST before all other
/// segments, in every state. What a SYN-ACK means depends on the state, and whether a FIN is
/// an answer on nothing but whether one was sent.
pub proof fn segment_has_one_meaning(tcp: TcpHeader, c: Connection, r: ClientEvent)
    requires
        call_ensures(classify_client, (&tcp, &c), r),
    ensures
        ({
            let state = c.con_rec.c_state.state;
            let in_sequence = state == TcpState::SynSent || tcp.seq_num == c.c_ackn_nxt;
            let syn_ack = tcp.syn && tcp.ack;
            &&& r == ClientEvent::WrongSeqn <==> !in_sequence
            &&& in_sequence && syn_ack ==> {
                &&& state == TcpState::SynSent ==> r == ClientEvent::SynAck
                &&& state == TcpState::Established ==> r == ClientEvent::SynAckAgain
                &&& state != TcpState::SynSent && state != TcpState::Established ==> r
                    == ClientEvent::UnexpectedSynAck
            }
            &&& in_sequence && !syn_ack && tcp.fin ==> {
                &&& c.con_rec.c_state.fin_wait_1_or_later ==> r == ClientEvent::FinReply
                &&& !c.con_rec.c_state.fin_wait_1_or_later ==> r == ClientEvent::Fin
            }
            &&& in_sequence && !syn_ack && !tcp.fin && tcp.rst ==> r == ClientEvent::Rst
            &&& in_sequence && !tcp.syn && tcp.ack && !tcp.fin && !tcp.rst ==> {
                &&& state == TcpState::LastAck ==> r == ClientEvent::FinalAck
                &&& state != TcpState::LastAck ==> r == ClientEvent::Ack
            }
            &&& in_sequence && !tcp.ack && !tcp.fin && !tcp.rst ==> r == ClientEvent::Unexpected
        }),
{
}

/// A segment to the client side touches neither the configuration, nor the ticks, nor the
/// counters of the server side. It counts no SYN, sets no timeout and reports nothing.
pub proof fn client_side_keeps_to_itself(
    e: &mut Engine,
    p: &mut Packet,
    h: &mut HeaderState,
    local: SocketAddr,
    c: Option<Connection>,
    r: Outcome,
)
    requires
        call_ensures(Engine::process, (e, p, h, &local, Answer::Port(c)), r),
    ensures
        final(e).config == old(e).config,
        final(e).ticks == old(e).ticks,
        final(e).counter_from == old(e).counter_from,
        final(e).counter_to.sent_syn == old(e).counter_to.sent_syn,
        r.connection is Some <==> c is Some,
        frames::nothing_else(r),
{
    let step = old(e).step(old(p)@, *old(h), local, Answer::Port(c));
    frames::counted_one_by_one(old(e).counter_to, final(e).counter_to, step.counts_to);
    frames::counted_one_by_one(old(e).counter_from, final(e).counter_from, step.counts_from);
    assert(r@.stamps == r.stamps@);
}

/// A segment to a port without a connection is handed to the kernel as it is, and nothing
/// is counted.
pub proof fn unknown_ports_go_to_the_kernel(
    e: &mut Engine,
    p: &mut Packet,
    h: &mut HeaderState,
    local: SocketAddr,
    r: Outcome,
)
    requires
        call_ensures(Engine::process, (e, p, h, &local, Answer::Port(None)), r),
    ensures
        r.verdict == (Verdict { group: 2, release: None, ready: None }),
        r.connection is None,
        final(e).counter_to == old(e).counter_to,
        frames::passed_on(*old(h), *final(h)),
        frames::same_frame(*old(p), *final(p)),
{
    let step = old(e).step(old(p)@, *old(h), local, Answer::Port(None));
    frames::counted_one_by_one(old(e).counter_to, final(e).counter_to, step.counts_to);
    assert(final(p)@.ops == final(p).ops@ && final(p)@.payload == final(p).payload@);
}

/// A segment out of sequence is handed to the kernel as it is, whatever its flags; only in
/// SYN-SENT any sequence number is taken.
pub proof fn out_of_sequence_goes_to_the_kernel(
    e: &mut Engine,
    p: &mut Packet,
    h: &mut HeaderState,
    local: SocketAddr,
    c: Connection,
    r: Outcome,
)
    requires
        call_ensures(Engine::process, (e, p, h, &local, Answer::Port(Some(c))), r),
        c.con_rec.c_state.state != TcpState::SynSent,
        old(h).tcp.seq_num != c.c_ackn_nxt,
    ensures
        r.verdict == (Verdict { group: 2, release: None, ready: None }),
        final(e).counter_to == old(e).counter_to,
        frames::noted(
            c,
            r.connection,
            seq![],
        ),
        frames::passed_on(*old(h), *final(h)),
        frames::same_frame(*old(p), *final(p)),
{
    lemma_client_parts(e, p, h, local, c, r);
}

/// The SYN-ACK for which SYN-SENT waits is answered with an ACK, whatever its sequence number
/// and its other flags. It establishes the connection, makes it ready, and what it
/// acknowledges is expected next.
pub proof fn syn_ack_establishes(
    e: &mut Engine,
    p: &mut Packet,
    h: &mut HeaderState,
    local: SocketAddr,
    c: Connection,
    r: Outcome,
)
    requires
        call_ensures(Engine::process, (e, p, h, &local, Answer::Port(Some(c))), r),
        old(h).tcp.syn && old(h).tcp.ack,
        c.con_rec.c_state.state == TcpState::SynSent,
    ensures
        r.verdict == (Verdict { group: 1, release: None, ready: Some(c.port) }),
        final(e).counter_to == (TcpCounter {
            recv_syn_ack: (old(e).counter_to.recv_syn_ack + 1) as usize,
            sent_ack: (old(e).counter_to.sent_ack + 1) as usize,
            ..old(e).counter_to
        }),
        frames::answered(*old(h), *final(h)),
        final(h).tcp.seq_num == c.c_seqn_nxt,
        final(h).tcp.data_offset == old(h).tcp.data_offset,
        final(h).ip.length == old(h).ip.length,
        !final(h).tcp.syn,
        r.connection is Some,
        frames::same_identity(c, r.connection->0),
        r.connection->0.con_rec.ops@ =~= c.con_rec.ops@ + seq![RecordOp::CEstablished],
        r.connection->0.c_ackn_nxt == old(h).tcp.seq_num.wrapping_add(1),
        r.connection->0.c_seqn_nxt == c.c_seqn_nxt && r.connection->0.s_seqn == c.s_seqn,
        r.connection->0.dut_mac == c.dut_mac && r.connection->0.dut_sock == c.dut_sock,
        frames::new_checksum(*old(p), *final(p), *final(h)),
{
    lemma_client_parts(e, p, h, local, c, r);
}

/// A SYN-ACK in sequence on an established connection is answered once more, but nothing is
/// recorded and the connection is not made ready again.
pub proof fn repeated_syn_ack_is_answered(
    e: &mut Engine,
    p: &mut Packet,
    h: &mut HeaderState,
    local: SocketAddr,
    c: Connection,
    r: Outcome,
)
    requires
        call_ensures(Engine::process, (e, p, h, &local, Answer::Port(Some(c))), r),
        old(h).tcp.syn && old(h).tcp.ack,
        c.con_rec.c_state.state == TcpState::Established,
        old(h).tcp.seq_num == c.c_ackn_nxt,
    ensures
        r.verdict == (Verdict { group: 1, release: None, ready: None }),
        final(e).counter_to == (TcpCounter {
            recv_syn_ack: (old(e).counter_to.recv_syn_ack + 1) as usize,
            sent_ack: (old(e).counter_to.sent_ack + 1) as usize,
            ..old(e).counter_to
        }),
        frames::answered(*old(h), *final(h)),
        final(h).tcp.seq_num == c.c_seqn_nxt,
        final(h).tcp.data_offset == old(h).tcp.data_offset,
        final(h).ip.length == old(h).ip.length,
        !final(h).tcp.syn,
        r.connection is Some,
        frames::same_identity(c, r.connection->0),
        r.connection->0.con_rec.ops@ =~= c.con_rec.ops@,
        r.connection->0.c_ackn_nxt == old(h).tcp.seq_num.wrapping_add(1),
        r.connection->0.c_seqn_nxt == c.c_seqn_nxt && r.connection->0.s_seqn == c.s_seqn,
        r.connection->0.dut_mac == c.dut_mac && r.connection->0.dut_sock == c.dut_sock,
        frames::new_checksum(*old(p), *final(p), *final(h)),
{
    lemma_client_parts(e, p, h, local, c, r);
}

/// A SYN-ACK in sequence in any other state is counted and dropped.
pub proof fn late_syn_ack_is_dropped(
    e: &mut Engine,
    p: &mut Packet,
    h: &mut HeaderState,
    local: SocketAddr,
    c: Connection,
    r: Outcome,
)
    requires
        call_ensures(Engine::process, (e, p, h, &local, Answer::Port(Some(c))), r),
        old(h).tcp.syn && old(h).tcp.ack,
        c.con_rec.c_state.state != TcpState::SynSent,
        c.con_rec.c_state.state != TcpState::Established,
        old(h).tcp.seq_num == c.c_ackn_nxt,
    ensures
        r.verdict == (Verdict { group: 0, release: None, ready: None }),
        final(e).counter_to == (TcpCounter {
            recv_syn_ack: (old(e).counter_to.recv_syn_ack + 1) as usize,
            ..old(e).counter_to
        }),
        frames::noted(
            c,
            r.connection,
            seq![],
        ),
        frames::passed_on(*old(h), *final(h)),
        frames::same_frame(*old(p), *final(p)),
{
    lemma_client_parts(e, p, h, local, c, r);
}

/// A FIN in sequence from a server that was not sent one is answered with FIN and ACK, under
/// the next sequence number of the connection, which enters LAST-ACK. A SYN-ACK goes before.
pub proof fn fin_is_answered(
    e: &mut Engine,
    p: &mut Packet,
    h: &mut HeaderState,
    local: SocketAddr,
    c: Connection,
    r: Outcome,
)
    requires
        call_ensures(Engine::process, (e, p, h, &local, Answer::Port(Some(c))), r),
        old(h).tcp.fin,
        !(old(h).tcp.syn && old(h).tcp.ack),
        c.con_rec.c_state.state == TcpState::SynSent || old(h).tcp.seq_num == c.c_ackn_nxt,
        !c.con_rec.c_state.fin_wait_1_or_later,
    ensures
        r.verdict == (Verdict { group: 1, release: None, ready: None }),
        final(e).counter_to == (TcpCounter {
            recv_fin: (old(e).counter_to.recv_fin + 1) as usize,
            sent_fin_ack: (old(e).counter_to.sent_fin_ack + 1) as usize,
            ..old(e).counter_to
        }),
        frames::answered(*old(h), *final(h)),
        final(h).tcp.seq_num == c.c_seqn_nxt,
        final(h).tcp.data_offset == old(h).tcp.data_offset,
        final(h).ip.length == old(h).ip.length,
        final(h).tcp.syn == old(h).tcp.syn,
        r.connection is Some,
        frames::same_identity(c, r.connection->0),
        r.connection->0.con_rec.ops@ =~= c.con_rec.ops@ + seq![RecordOp::PushCState(TcpState::LastAck)],
        r.connection->0.c_ackn_nxt == old(h).tcp.seq_num.wrapping_add(1),
        r.connection->0.c_seqn_nxt == c.c_seqn_nxt && r.connection->0.s_seqn == c.s_seqn,
        r.connection->0.dut_mac == c.dut_mac && r.connection->0.dut_sock == c.dut_sock,
        frames::new_checksum(*old(p), *final(p), *final(h)),
{
    lemma_client_parts(e, p, h, local, c, r);
}

/// A FIN in sequence from a server that was sent one closes the connection, without an
/// answer.
pub proof fn fin_reply_closes(
    e: &mut Engine,
    p: &mut Packet,
    h: &mut HeaderState,
    local: SocketAddr,
    c: Connection,
    r: Outcome,
)
    requires
        call_ensures(Engine::process, (e, p, h, &local, Answer::Port(Some(c))), r),
        old(h).tcp.fin,
        !(old(h).tcp.syn && old(h).tcp.ack),
        c.con_rec.c_state.state == TcpState::SynSent || old(h).tcp.seq_num == c.c_ackn_nxt,
        c.con_rec.c_state.fin_wait_1_or_later,
    ensures
        r.verdict == (Verdict { group: 0, release: None, ready: None }),
        final(e).counter_to == (TcpCounter {
            recv_fin_ack: (old(e).counter_to.recv_fin_ack + 1) as usize,
            ..old(e).counter_to
        }),
        frames::noted(
            c,
            r.connection,
            seq![RecordOp::PushCState(TcpState::Closed)],
        ),
        frames::passed_on(*old(h), *final(h)),
        frames::same_frame(*old(p), *final(p)),
{
    lemma_client_parts(e, p, h, local, c, r);
}

/// A reset in sequence that is neither a SYN-ACK nor a FIN closes the connection in every
/// state, notes the reset and releases the port.
pub proof fn rst_releases(
    e: &mut Engine,
    p: &mut Packet,
    h: &mut HeaderState,
    local: SocketAddr,
    c: Connection,
    r: Outcome,
)
    requires
        call_ensures(Engine::process, (e, p, h, &local, Answer::Port(Some(c))), r),
        old(h).tcp.rst && !old(h).tcp.fin,
        !(old(h).tcp.syn && old(h).tcp.ack),
        c.con_rec.c_state.state == TcpState::SynSent || old(h).tcp.seq_num == c.c_ackn_nxt,
    ensures
        r.verdict == (Verdict { group: 0, release: Some(c.port), ready: None }),
        final(e).counter_to == (TcpCounter {
            recv_rst: (old(e).counter_to.recv_rst + 1) as usize,
            ..old(e).counter_to
        }),
        frames::noted(
            c,
            r.connection,
            seq![RecordOp::PushCState(TcpState::Closed), RecordOp::CReleased(ReleaseCause::RstServer)],
        ),
        frames::passed_on(*old(h), *final(h)),
        frames::same_frame(*old(p), *final(p)),
{
    lemma_client_parts(e, p, h, local, c, r);
}

/// An ACK in sequence in LAST-ACK, without SYN, FIN and RST, closes the connection, notes
/// the close by the server and releases the port.
pub proof fn final_ack_releases(
    e: &mut Engine,
    p: &mut Packet,
    h: &mut HeaderState,
    local: SocketAddr,
    c: Connection,
    r: Outcome,
)
    requires
        call_ensures(Engine::process, (e, p, h, &local, Answer::Port(Some(c))), r),
        old(h).tcp.ack && !old(h).tcp.syn && !old(h).tcp.fin && !old(h).tcp.rst,
        c.con_rec.c_state.state == TcpState::LastAck,
        old(h).tcp.seq_num == c.c_ackn_nxt,
    ensures
        r.verdict == (Verdict { group: 0, release: Some(c.port), ready: None }),
        final(e).counter_to == (TcpCounter {
            recv_fin_ack2: (old(e).counter_to.recv_fin_ack2 + 1) as usize,
            ..old(e).counter_to
        }),
        frames::noted(
            c,
            r.connection,
            seq![RecordOp::PushCState(TcpState::Closed), RecordOp::CReleased(ReleaseCause::FinServer)],
        ),
        frames::passed_on(*old(h), *final(h)),
        frames::same_frame(*old(p), *final(p)),
{
    lemma_client_parts(e, p, h, local, c, r);
}

/// Any other ACK in sequence, without SYN, FIN and RST, is dropped and changes nothing.
pub proof fn other_acks_are_dropped(
    e: &mut Engine,
    p: &mut Packet,
    h: &mut HeaderState,
    local: SocketAddr,
    c: Connection,
    r: Outcome,
)
    requires
        call_ensures(Engine::process, (e, p, h, &local, Answer::Port(Some(c))), r),
        old(h).tcp.ack && !old(h).tcp.syn && !old(h).tcp.fin && !old(h).tcp.rst,
        c.con_rec.c_state.state != TcpState::LastAck,
        c.con_rec.c_state.state == TcpState::SynSent || old(h).tcp.seq_num == c.c_ackn_nxt,
    ensures
        r.verdict == (Verdict { group: 0, release: None, ready: None }),
        final(e).counter_to == old(e).counter_to,
        frames::noted(
            c,
            r.connection,
            seq![],
        ),
        frames::passed_on(*old(h), *final(h)),
        frames::same_frame(*old(p), *final(p)),
{
    lemma_client_parts(e, p, h, local, c, r);
}

/// A segment in sequence without ACK, FIN and RST, with SYN or without, is counted as
/// unexpected and handed to the kernel as it is.
pub proof fn the_rest_goes_to_the_kernel(
    e: &mut Engine,
    p: &mut Packet,
    h: &mut HeaderState,
    local: SocketAddr,
    c: Connection,
    r: Outcome,
)
    requires
        call_ensures(Engine::process, (e, p, h, &local, Answer::Port(Some(c))), r),
        !old(h).tcp.ack && !old(h).tcp.fin && !old(h).tcp.rst,
        c.con_rec.c_state.state == TcpState::SynSent || old(h).tcp.seq_num == c.c_ackn_nxt,
    ensures
        r.verdict == (Verdict { group: 2, release: None, ready: None }),
        final(e).counter_to == (TcpCounter {
            unexpected: (old(e).counter_to.unexpected + 1) as usize,
            ..old(e).counter_to
        }),
        frames::noted(
            c,
            r.connection,
            seq![],
        ),
        frames::passed_on(*old(h), *final(h)),
        frames::same_frame(*old(p), *final(p)),
{
    lemma_client_parts(e, p, h, local, c, r);
}

/// Takes the result of a call apart.
proof fn lemma_client_parts(
    e: &mut Engine,
    p: &mut Packet,
    h: &mut HeaderState,
    local: SocketAddr,
    c: Connection,
    r: Outcome,
)
    requires
        call_ensures(Engine::process, (e, p, h, &local, Answer::Port(Some(c))), r),
    ensures
        ({
            let step = old(e).port_step(old(p)@, *old(h), Some(c@));
            let before = old(e).counter_to;
            let after = final(e).counter_to;
            let ks = step.counts_to;
            &&& r@ == step.out
            &&& *final(h) == step.h.one_hop_on()
            &&& final(p)@ == step.p
            &&& after.sent_syn == before.sent_syn + frames::once(
                ks.contains(TcpControls::SentSyn),
            )
            &&& after.sent_syn_ack == before.sent_syn_ack + frames::once(
                ks.contains(TcpControls::SentSynAck),
            )
            &&& after.sent_ack == before.sent_ack + frames::once(
                ks.contains(TcpControls::SentAck),
            )
            &&& after.sent_fin_ack == before.sent_fin_ack + frames::once(
                ks.contains(TcpControls::SentFinAck),
            )
            &&& after.recv_syn == before.recv_syn + frames::once(
                ks.contains(TcpControls::RecvSyn),
            )
            &&& after.recv_syn_ack == before.recv_syn_ack + frames::once(
                ks.contains(TcpControls::RecvSynAck),
            )
            &&& after.recv_syn_ack2 == before.recv_syn_ack2 + frames::once(
                ks.contains(TcpControls::RecvSynAck2),
            )
            &&& after.recv_fin == before.recv_fin + frames::once(
                ks.contains(TcpControls::RecvFin),
            )
            &&& after.recv_fin_ack == before.recv_fin_ack + frames::once(
                ks.contains(TcpControls::RecvFinAck),
            )
            &&& after.recv_fin_ack2 == before.recv_fin_ack2 + frames::once(
                ks.contains(TcpControls::RecvFinAck2),
            )
            &&& after.recv_rst == before.recv_rst + frames::once(
                ks.contains(TcpControls::RecvRst),
            )
            &&& after.unexpected == before.unexpected + frames::once(
                ks.contains(TcpControls::Unexpected),
            )
        }),
        r.connection is Some,
        r.connection->0@ == r@.connection->0,
        final(p)@.ops == final(p).ops@ && final(p)@.payload == final(p).payload@,
{
    let step = old(e).step(old(p)@, *old(h), local, Answer::Port(Some(c)));
    frames::counted_one_by_one(old(e).counter_to, final(e).counter_to, step.counts_to);
}

} // verus!
