//! Laws of the server side: what comes of a segment to the port on which a pipeline
//! listens.

use crate::connection::{Connection, RecordOp, ReleaseCause, SideState, TcpState};
use crate::counter::{TcpControls, TcpCounter};
use crate::engine::{Answer, Engine, Outcome};
use crate::headers::{HeaderState, SocketAddr, TcpHeader};
use crate::laws::frames;
use crate::packet::{Packet, PacketOp};
use crate::server::{classify_server, ServerEvent};
use crate::verdict::Verdict;
use vstd::prelude::*;

verus! {

/// A segment with SYN is about opening, and it opens exactly the connections that are closed.
/// Without SYN, the ACK for which SYN-RECEIVED waits establishes, whatever else the segment
/// says; then FIN goes before RST, and RST before the ACK for which LAST-ACK waits. Whether a
/// FIN is an answer depends on nothing but whether one was sent.
pub proof fn segment_has_one_meaning(tcp: TcpHeader, s: SideState, r: ServerEvent)
    requires
        call_ensures(classify_server, (&tcp, &s), r),
    ensures
        tcp.syn <==> r == ServerEvent::Syn || r == ServerEvent::UnexpectedSyn,
        tcp.syn ==> (r == ServerEvent::Syn <==> s.state == TcpState::Closed),
        r == ServerEvent::Established <==> !tcp.syn && tcp.ack && s.state == TcpState::SynReceived,
        r == ServerEvent::Fin || r == ServerEvent::FinReply <==> !tcp.syn && tcp.fin && r
            != ServerEvent::Established,
        r == ServerEvent::FinReply ==> s.fin_wait_1_or_later,
        r == ServerEvent::Fin ==> !s.fin_wait_1_or_later,
        r == ServerEvent::Rst <==> !tcp.syn && !tcp.fin && tcp.rst && r
            != ServerEvent::Established,
        r == ServerEvent::FinalAck <==> !tcp.syn && !tcp.fin && !tcp.rst && tcp.ack && s.state
            == TcpState::LastAck,
{
}

/// A segment to the server side touches neither the configuration, nor the ticks, nor the
/// counters of the client side. It never makes a connection ready, sets no timeout and
/// reports nothing. The only things it can count besides a received SYN are what the server
/// side counts.
pub proof fn server_side_keeps_to_itself(
    e: &mut Engine,
    p: &mut Packet,
    h: &mut HeaderState,
    local: SocketAddr,
    c: Option<Connection>,
    r: Outcome,
)
    requires
        call_ensures(Engine::process, (e, p, h, &local, Answer::Source(c)), r),
    ensures
        final(e).config == old(e).config,
        final(e).ticks == old(e).ticks,
        final(e).counter_to == old(e).counter_to,
        final(e).counter_from.recv_syn == old(e).counter_from.recv_syn + frames::once(
            old(h).tcp.syn,
        ),
        final(e).counter_from.sent_syn == old(e).counter_from.sent_syn,
        final(e).counter_from.sent_ack == old(e).counter_from.sent_ack,
        final(e).counter_from.recv_syn_ack == old(e).counter_from.recv_syn_ack,
        final(e).counter_from.unexpected == old(e).counter_from.unexpected,
        r.verdict.ready is None,
        r.verdict.group == 0 || r.verdict.group == 1,
        r.connection is Some <==> c is Some,
        frames::nothing_else(r),
{
    let step = old(e).step(old(p)@, *old(h), local, Answer::Source(c));
    frames::counted_one_by_one(old(e).counter_to, final(e).counter_to, step.counts_to);
    frames::counted_one_by_one(old(e).counter_from, final(e).counter_from, step.counts_from);
    assert(r@.stamps == r.stamps@);
}

/// A segment from a stranger is dropped as it is; a SYN is counted nevertheless.
pub proof fn strangers_are_dropped(
    e: &mut Engine,
    p: &mut Packet,
    h: &mut HeaderState,
    local: SocketAddr,
    r: Outcome,
)
    requires
        call_ensures(Engine::process, (e, p, h, &local, Answer::Source(None)), r),
    ensures
        r.verdict == (Verdict { group: 0, release: None, ready: None }),
        r.connection is None,
        frames::passed_on(*old(h), *final(h)),
        frames::same_frame(*old(p), *final(p)),
        old(h).tcp.syn ==> final(e).counter_from == (TcpCounter {
            recv_syn: (old(e).counter_from.recv_syn + 1) as usize,
            ..old(e).counter_from
        }),
        !old(h).tcp.syn ==> final(e).counter_from == old(e).counter_from,
{
    let step = old(e).step(old(p)@, *old(h), local, Answer::Source(None));
    frames::counted_one_by_one(old(e).counter_from, final(e).counter_from, step.counts_from);
    assert(final(p)@.ops == final(p).ops@ && final(p)@.payload == final(p).payload@);
}

/// A SYN on a closed connection, whatever its other flags, is answered with a SYN-ACK and
/// nothing else happens to the connection but that it enters SYN-RECEIVED, keeps the
/// sequence number of the answer and remembers the sender. The `k`-th SYN is answered with
/// the sequence number 123456 + 64 k. TCP options do not come back.
pub proof fn syn_is_answered(
    e: &mut Engine,
    p: &mut Packet,
    h: &mut HeaderState,
    local: SocketAddr,
    c: Connection,
    r: Outcome,
)
    requires
        call_ensures(Engine::process, (e, p, h, &local, Answer::Source(Some(c))), r),
        old(h).tcp.syn,
        c.con_rec.s_state.state == TcpState::Closed,
        old(h).tcp.data_offset > 5 ==> old(p).data_len >= 60 && old(h).ip.length >= 4 * (old(
            h,
        ).tcp.data_offset - 5),
    ensures
        r.verdict == (Verdict { group: 1, release: None, ready: None }),
        final(e).counter_from == (TcpCounter {
            recv_syn: (old(e).counter_from.recv_syn + 1) as usize,
            sent_syn_ack: (old(e).counter_from.sent_syn_ack + 1) as usize,
            ..old(e).counter_from
        }),
        frames::answered(*old(h), *final(h)),
        final(h).tcp.syn,
        final(h).tcp.seq_num == (123456 + 64 * (old(e).counter_from.recv_syn + 1)) % 0x1_0000_0000,
        r.connection is Some,
        frames::same_identity(c, r.connection->0),
        r.connection->0.con_rec.ops@ =~= c.con_rec.ops@ + seq![
            RecordOp::PushSState(TcpState::SynReceived),
        ],
        r.connection->0.s_seqn == final(h).tcp.seq_num,
        r.connection->0.c_seqn_nxt == c.c_seqn_nxt && r.connection->0.c_ackn_nxt == c.c_ackn_nxt,
        r.connection->0.dut_mac == Some(old(h).mac),
        r.connection->0.dut_sock == Some(
            SocketAddr { ip: old(h).ip.src, port: old(h).tcp.src_port },
        ),
        final(p).payload@ == old(p).payload@,
        old(h).tcp.data_offset <= 5 ==> {
            &&& final(h).tcp.data_offset == old(h).tcp.data_offset
            &&& final(h).ip.length == old(h).ip.length
            &&& frames::new_checksum(*old(p), *final(p), *final(h))
        },
        old(h).tcp.data_offset > 5 ==> {
            let options = 4 * (old(h).tcp.data_offset - 5);
            let cut = old(p).data_len - final(p).data_len;
            &&& final(h).tcp.data_offset == 5
            &&& final(h).ip.length + options == old(h).ip.length
            &&& 0 <= cut <= options
            &&& final(p).data_len >= 60
            &&& cut == options || final(p).data_len == 60
            &&& final(p).ops@ =~= old(p).ops@ + seq![
                PacketOp::TrimPayload(cut as usize),
                PacketOp::UpdateTcpChecksum {
                    ip_length: final(h).ip.length,
                    src: final(h).ip.src,
                    dst: final(h).ip.dst,
                },
            ]
        },
{
    let step = old(e).step(old(p)@, *old(h), local, Answer::Source(Some(c)));
    frames::counted_one_by_one(old(e).counter_from, final(e).counter_from, step.counts_from);
    frames::connection_is_seen_whole(r.connection->0);
    frames::connection_is_seen_whole(c);
    frames::frame_is_seen_whole(*final(p));
    frames::frame_is_seen_whole(*old(p));
}

/// A segment without SYN to a connection in SYN-RECEIVED establishes it if it has ACK,
/// whatever its other flags: that, and only that, is recorded and counted, and the segment
/// is dropped as it is.
pub proof fn ack_establishes(
    e: &mut Engine,
    p: &mut Packet,
    h: &mut HeaderState,
    local: SocketAddr,
    c: Connection,
    r: Outcome,
)
    requires
        call_ensures(Engine::process, (e, p, h, &local, Answer::Source(Some(c))), r),
        !old(h).tcp.syn && old(h).tcp.ack,
        c.con_rec.s_state.state == TcpState::SynReceived,
    ensures
        r.verdict == (Verdict { group: 0, release: None, ready: None }),
        final(e).counter_from == (TcpCounter {
            recv_syn_ack2: (old(e).counter_from.recv_syn_ack2 + 1) as usize,
            ..old(e).counter_from
        }),
        frames::noted(c, r.connection, seq![RecordOp::SEstablished]),
        frames::passed_on(*old(h), *final(h)),
        frames::same_frame(*old(p), *final(p)),
{
    lemma_server_parts(e, p, h, local, c, r);
}

/// A FIN of a peer that was not sent one is answered with FIN and ACK, under the sequence
/// number after the last one; the connection enters LAST-ACK and is noted as closed by the
/// peer. A SYN, or the ACK that completes the handshake, goes before.
pub proof fn fin_is_answered(
    e: &mut Engine,
    p: &mut Packet,
    h: &mut HeaderState,
    local: SocketAddr,
    c: Connection,
    r: Outcome,
)
    requires
        call_ensures(Engine::process, (e, p, h, &local, Answer::Source(Some(c))), r),
        !old(h).tcp.syn && old(h).tcp.fin,
        !(old(h).tcp.ack && c.con_rec.s_state.state == TcpState::SynReceived),
        !c.con_rec.s_state.fin_wait_1_or_later,
    ensures
        r.verdict == (Verdict { group: 1, release: None, ready: None }),
        final(e).counter_from == (TcpCounter {
            recv_fin: (old(e).counter_from.recv_fin + 1) as usize,
            sent_fin_ack: (old(e).counter_from.sent_fin_ack + 1) as usize,
            ..old(e).counter_from
        }),
        frames::answered(*old(h), *final(h)),
        !final(h).tcp.syn,
        final(h).tcp.seq_num == c.s_seqn.wrapping_add(1),
        final(h).tcp.data_offset == old(h).tcp.data_offset,
        final(h).ip.length == old(h).ip.length,
        r.connection is Some,
        frames::same_identity(c, r.connection->0),
        r.connection->0.con_rec.ops@ =~= c.con_rec.ops@ + seq![
            RecordOp::CReleased(ReleaseCause::FinServer),
            RecordOp::PushSState(TcpState::LastAck),
        ],
        r.connection->0.s_seqn == c.s_seqn.wrapping_add(1),
        r.connection->0.c_seqn_nxt == c.c_seqn_nxt && r.connection->0.c_ackn_nxt == c.c_ackn_nxt,
        r.connection->0.dut_mac == c.dut_mac && r.connection->0.dut_sock == c.dut_sock,
        frames::new_checksum(*old(p), *final(p), *final(h)),
{
    let step = old(e).step(old(p)@, *old(h), local, Answer::Source(Some(c)));
    frames::counted_one_by_one(old(e).counter_from, final(e).counter_from, step.counts_from);
    frames::connection_is_seen_whole(r.connection->0);
    frames::connection_is_seen_whole(c);
    frames::frame_is_seen_whole(*final(p));
    frames::frame_is_seen_whole(*old(p));
}

/// A FIN of a peer that was sent one closes the connection, without an answer.
pub proof fn fin_reply_closes(
    e: &mut Engine,
    p: &mut Packet,
    h: &mut HeaderState,
    local: SocketAddr,
    c: Connection,
    r: Outcome,
)
    requires
        call_ensures(Engine::process, (e, p, h, &local, Answer::Source(Some(c))), r),
        !old(h).tcp.syn && old(h).tcp.fin,
        !(old(h).tcp.ack && c.con_rec.s_state.state == TcpState::SynReceived),
        c.con_rec.s_state.fin_wait_1_or_later,
    ensures
        r.verdict == (Verdict { group: 0, release: None, ready: None }),
        final(e).counter_from == (TcpCounter {
            recv_fin_ack: (old(e).counter_from.recv_fin_ack + 1) as usize,
            ..old(e).counter_from
        }),
        frames::noted(c, r.connection, seq![RecordOp::PushSState(TcpState::Closed)]),
        frames::passed_on(*old(h), *final(h)),
        frames::same_frame(*old(p), *final(p)),
{
    lemma_server_parts(e, p, h, local, c, r);
}

/// A reset without SYN and FIN that does not complete the handshake closes the connection
/// in every state, notes the reset and releases the port.
pub proof fn rst_releases(
    e: &mut Engine,
    p: &mut Packet,
    h: &mut HeaderState,
    local: SocketAddr,
    c: Connection,
    r: Outcome,
)
    requires
        call_ensures(Engine::process, (e, p, h, &local, Answer::Source(Some(c))), r),
        !old(h).tcp.syn && !old(h).tcp.fin && old(h).tcp.rst,
        !(old(h).tcp.ack && c.con_rec.s_state.state == TcpState::SynReceived),
    ensures
        r.verdict == (Verdict { group: 0, release: Some(c.port), ready: None }),
        final(e).counter_from == (TcpCounter {
            recv_rst: (old(e).counter_from.recv_rst + 1) as usize,
            ..old(e).counter_from
        }),
        frames::noted(
            c,
            r.connection,
            seq![
                RecordOp::PushSState(TcpState::Closed),
                RecordOp::CReleased(ReleaseCause::RstServer),
            ],
        ),
        frames::passed_on(*old(h), *final(h)),
        frames::same_frame(*old(p), *final(p)),
{
    lemma_server_parts(e, p, h, local, c, r);
}

/// An ACK in LAST-ACK, without SYN, FIN and RST, closes the connection, notes the close by
/// the peer and releases the port.
pub proof fn final_ack_releases(
    e: &mut Engine,
    p: &mut Packet,
    h: &mut HeaderState,
    local: SocketAddr,
    c: Connection,
    r: Outcome,
)
    requires
        call_ensures(Engine::process, (e, p, h, &local, Answer::Source(Some(c))), r),
        old(h).tcp.ack && !old(h).tcp.syn && !old(h).tcp.fin && !old(h).tcp.rst,
        c.con_rec.s_state.state == TcpState::LastAck,
    ensures
        r.verdict == (Verdict { group: 0, release: Some(c.port), ready: None }),
        final(e).counter_from == (TcpCounter {
            recv_fin_ack2: (old(e).counter_from.recv_fin_ack2 + 1) as usize,
            ..old(e).counter_from
        }),
        frames::noted(
            c,
            r.connection,
            seq![
                RecordOp::PushSState(TcpState::Closed),
                RecordOp::CReleased(ReleaseCause::FinServer),
            ],
        ),
        frames::passed_on(*old(h), *final(h)),
        frames::same_frame(*old(p), *final(p)),
{
    lemma_server_parts(e, p, h, local, c, r);
}

/// All else is dropped and changes nothing: a SYN on a connection that is not closed, of
/// which only the SYN is counted, and a segment without SYN, FIN and RST that is not the
/// ACK for which SYN-RECEIVED or LAST-ACK waits.
pub proof fn the_rest_is_dropped(
    e: &mut Engine,
    p: &mut Packet,
    h: &mut HeaderState,
    local: SocketAddr,
    c: Connection,
    r: Outcome,
)
    requires
        call_ensures(Engine::process, (e, p, h, &local, Answer::Source(Some(c))), r),
        ({
            let state = c.con_rec.s_state.state;
            ||| old(h).tcp.syn && state != TcpState::Closed
            ||| {
                &&& !old(h).tcp.syn && !old(h).tcp.fin && !old(h).tcp.rst
                &&& !old(h).tcp.ack || (state != TcpState::SynReceived && state
                    != TcpState::LastAck)
            }
        }),
    ensures
        r.verdict == (Verdict { group: 0, release: None, ready: None }),
        old(h).tcp.syn ==> final(e).counter_from == (TcpCounter {
            recv_syn: (old(e).counter_from.recv_syn + 1) as usize,
            ..old(e).counter_from
        }),
        !old(h).tcp.syn ==> final(e).counter_from == old(e).counter_from,
        frames::noted(c, r.connection, seq![]),
        frames::passed_on(*old(h), *final(h)),
        frames::same_frame(*old(p), *final(p)),
{
    lemma_server_parts(e, p, h, local, c, r);
}

/// Takes the result of a call apart.
proof fn lemma_server_parts(
    e: &mut Engine,
    p: &mut Packet,
    h: &mut HeaderState,
    local: SocketAddr,
    c: Connection,
    r: Outcome,
)
    requires
        call_ensures(Engine::process, (e, p, h, &local, Answer::Source(Some(c))), r),
    ensures
        ({
            let step = old(e).source_step(old(p)@, *old(h), Some(c@));
            let before = old(e).counter_from;
            let after = final(e).counter_from;
            let ks = step.counts_from;
            &&& r@ == step.out
            &&& *final(h) == step.h.one_hop_on()
            &&& final(p)@ == step.p
            &&& after.sent_syn == before.sent_syn + frames::once(ks.contains(TcpControls::SentSyn))
            &&& after.sent_syn_ack == before.sent_syn_ack + frames::once(
                ks.contains(TcpControls::SentSynAck),
            )
            &&& after.sent_ack == before.sent_ack + frames::once(ks.contains(TcpControls::SentAck))
            &&& after.sent_fin_ack == before.sent_fin_ack + frames::once(
                ks.contains(TcpControls::SentFinAck),
            )
            &&& after.recv_syn == before.recv_syn + frames::once(ks.contains(TcpControls::RecvSyn))
            &&& after.recv_syn_ack == before.recv_syn_ack + frames::once(
                ks.contains(TcpControls::RecvSynAck),
            )
            &&& after.recv_syn_ack2 == before.recv_syn_ack2 + frames::once(
                ks.contains(TcpControls::RecvSynAck2),
            )
            &&& after.recv_fin == before.recv_fin + frames::once(ks.contains(TcpControls::RecvFin))
            &&& after.recv_fin_ack == before.recv_fin_ack + frames::once(
                ks.contains(TcpControls::RecvFinAck),
            )
            &&& after.recv_fin_ack2 == before.recv_fin_ack2 + frames::once(
                ks.contains(TcpControls::RecvFinAck2),
            )
            &&& after.recv_rst == before.recv_rst + frames::once(ks.contains(TcpControls::RecvRst))
            &&& after.unexpected == before.unexpected + frames::once(
                ks.contains(TcpControls::Unexpected),
            )
        }),
        r.connection is Some,
        r.connection->0@ == r@.connection->0,
        final(p)@.ops == final(p).ops@ && final(p)@.payload == final(p).payload@,
{
    let step = old(e).step(old(p)@, *old(h), local, Answer::Source(Some(c)));
    frames::counted_one_by_one(old(e).counter_from, final(e).counter_from, step.counts_from);
}

} // verus!
