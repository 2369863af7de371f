//! Laws of the frames that a pipeline injects into itself: those that become segments, and
//! the timer ticks.

use crate::connection::{Connection, RecordOp, TcpState};
use crate::counter::TcpCounter;
use crate::engine::{restarts_injector, Answer, Engine, Outcome};
use crate::headers::{HeaderState, SocketAddr};
use crate::laws::frames;
use crate::packet::{Packet, PacketOp};
use crate::timer::{report, wheel_tick_reduction_factor, Message, Report};
use crate::verdict::Verdict;
use vstd::prelude::*;

verus! {

/// A frame for which a new connection was made becomes its SYN, to the server whose turn it
/// is, under the sequence number 123456 + 4096 n for the n-th one, counted from zero. SYN
/// is its only flag, but for FIN and RST of the frame itself. The connection enters
/// SYN-SENT and goes on after the SYN; its timeout is set. The first SYN and the last one
/// are reported; after the last one the injector stops if no connection was ready.
pub proof fn injected_frame_opens_connection(
    e: &mut Engine,
    p: &mut Packet,
    h: &mut HeaderState,
    local: SocketAddr,
    ready_connections: usize,
    c: Connection,
    millis: u64,
    r: Outcome,
)
    requires
        call_ensures(
            Engine::process,
            (e, p, h, &local, Answer::Created { ready_connections, connection: Some(c) }),
            r,
        ),
        old(e).config.servers@.len() > 0,
        old(e).config.established == Some(millis),
        millis * old(e).config.millis_to_cycles <= u64::MAX,
    ensures
        ({
            let n = old(e).counter_to.sent_syn;
            let last = n + 1 == old(e).config.nr_connections;
            let turn = n as int % old(e).config.servers@.len() as int;
            &&& final(h).tcp.seq_num == (123456 + 4096 * n) % 0x1_0000_0000
            &&& frames::on_the_way(
                *final(h),
                old(e).config.me,
                c.port,
                old(e).config.servers@[turn],
            )
            &&& r.connection is Some
            &&& r.connection->0.con_rec.server_index == turn
            &&& r.stamps@ =~= (if n == 0 && last {
                seq![0usize, 1usize]
            } else if n == 0 {
                seq![0usize]
            } else if last {
                seq![(n + 1) as usize]
            } else {
                seq![]
            })
            &&& r.stop_injector == (last && ready_connections == 0)
        }),
        r.verdict == (Verdict { group: 1, release: None, ready: None }),
        r.schedule is Some,
        r.schedule->0.port == c.port,
        r.schedule->0.cycles == millis * old(e).config.millis_to_cycles,
        r.report is None && !r.release_timeouts,
        final(h).mac.etype == 0x0800,
        frames::one_less(old(h).ip.ttl, final(h).ip.ttl) && final(h).ip.checksum_due,
        final(h).ip.length == old(h).ip.length,
        final(h).tcp.syn && !final(h).tcp.ack && !final(h).tcp.psh,
        final(h).tcp.fin == old(h).tcp.fin && final(h).tcp.rst == old(h).tcp.rst,
        final(h).tcp.ack_num == 0 && final(h).tcp.window_size == 5840,
        final(h).tcp.data_offset == old(h).tcp.data_offset,
        frames::new_checksum(*old(p), *final(p), *final(h)),
        r.connection->0.port == c.port,
        r.connection->0.con_rec.ops@ =~= c.con_rec.ops@ + seq![
            RecordOp::PushCState(TcpState::SynSent),
        ],
        r.connection->0.c_seqn_nxt == final(h).tcp.seq_num.wrapping_add(1),
        r.connection->0.c_ackn_nxt == c.c_ackn_nxt && r.connection->0.s_seqn == c.s_seqn,
        r.connection->0.con_rec.c_state == c.con_rec.c_state,
        r.connection->0.con_rec.s_state == c.con_rec.s_state,
        r.connection->0.dut_mac == c.dut_mac && r.connection->0.dut_sock == c.dut_sock,
        final(e).counter_to == (TcpCounter {
            sent_syn: (old(e).counter_to.sent_syn + 1) as usize,
            ..old(e).counter_to
        }),
        final(e).counter_from == old(e).counter_from,
        final(e).config == old(e).config && final(e).ticks == old(e).ticks,
{
    let answer = Answer::Created { ready_connections, connection: Some(c) };
    let step = old(e).step(old(p)@, *old(h), local, answer);
    frames::counted_one_by_one(old(e).counter_to, final(e).counter_to, step.counts_to);
    frames::counted_one_by_one(old(e).counter_from, final(e).counter_from, step.counts_from);
    let n = old(e).counter_to.sent_syn as int;
    let len = old(e).config.servers@.len() as int;
    vstd::arithmetic::div_mod::lemma_mod_bound(n, len);
    vstd::arithmetic::div_mod::lemma_mod_decreases(n as nat, len as nat);
    frames::connection_is_seen_whole(r.connection->0);
    frames::connection_is_seen_whole(c);
    frames::frame_is_seen_whole(*final(p));
    frames::frame_is_seen_whole(*old(p));
    frames::outcome_is_seen_whole(r);
}

/// A frame for which no connection could be made, or found, is dropped as it is; nothing is
/// counted. The injector is stopped only where there was none to find, and only if it runs.
pub proof fn injected_frame_without_connection_is_dropped(
    e: &mut Engine,
    p: &mut Packet,
    h: &mut HeaderState,
    local: SocketAddr,
    ready_connections: usize,
    injector_runs: bool,
    created: bool,
    r: Outcome,
)
    requires
        call_ensures(
            Engine::process,
            (
                e,
                p,
                h,
                &local,
                if created {
                    Answer::Created { ready_connections, connection: None }
                } else {
                    Answer::NextReady { connection: None, injector_runs }
                },
            ),
            r,
        ),
    ensures
        r.verdict == (Verdict { group: 0, release: None, ready: None }),
        r.connection is None,
        r.stamps@.len() == 0 && r.schedule is None && r.report is None && !r.release_timeouts,
        r.stop_injector == (!created && injector_runs),
        frames::passed_on(*old(h), *final(h)),
        frames::same_frame(*old(p), *final(p)),
        final(e).counter_to == old(e).counter_to && final(e).counter_from == old(e).counter_from,
        final(e).config == old(e).config && final(e).ticks == old(e).ticks,
{
    let answer = if created {
        Answer::Created { ready_connections, connection: None }
    } else {
        Answer::NextReady { connection: None, injector_runs }
    };
    let step = old(e).step(old(p)@, *old(h), local, answer);
    frames::counted_one_by_one(old(e).counter_to, final(e).counter_to, step.counts_to);
    frames::counted_one_by_one(old(e).counter_from, final(e).counter_from, step.counts_from);
    frames::frame_is_seen_whole(*final(p));
    frames::outcome_is_seen_whole(r);
}

/// A frame for which a ready connection was found carries the socket on which the pipeline
/// listens, six bytes, to the server of the connection. Its flags are ACK and PSH, but for
/// FIN and RST of the frame itself. The connection goes on after the payload; nothing is
/// recorded or counted.
pub proof fn injected_frame_carries_payload(
    e: &mut Engine,
    p: &mut Packet,
    h: &mut HeaderState,
    local: SocketAddr,
    injector_runs: bool,
    c: Connection,
    r: Outcome,
)
    requires
        call_ensures(
            Engine::process,
            (e, p, h, &local, Answer::NextReady { connection: Some(c), injector_runs }),
            r,
        ),
        old(h).ip.length + 6 <= u16::MAX,
        old(p).data_len + 6 <= usize::MAX,
    ensures
        r.verdict == (Verdict { group: 1, release: None, ready: None }),
        frames::nothing_else(r),
        frames::on_the_way(
            *final(h),
            old(e).config.me,
            c.port,
            old(e).config.servers@[c.con_rec.server_index as int],
        ),
        final(h).mac.etype == 0x0800,
        frames::one_less(old(h).ip.ttl, final(h).ip.ttl) && final(h).ip.checksum_due,
        final(h).ip.length == old(h).ip.length + 6,
        final(h).tcp.ack && final(h).tcp.psh && !final(h).tcp.syn,
        final(h).tcp.fin == old(h).tcp.fin && final(h).tcp.rst == old(h).tcp.rst,
        final(h).tcp.seq_num == c.c_seqn_nxt && final(h).tcp.ack_num == c.c_ackn_nxt,
        final(h).tcp.window_size == 5840,
        final(h).tcp.data_offset == old(h).tcp.data_offset,
        r.connection is Some,
        frames::same_identity(c, r.connection->0),
        r.connection->0.con_rec.ops@ == c.con_rec.ops@,
        r.connection->0.c_seqn_nxt == c.c_seqn_nxt.wrapping_add(6),
        r.connection->0.c_ackn_nxt == c.c_ackn_nxt && r.connection->0.s_seqn == c.s_seqn,
        r.connection->0.dut_mac == c.dut_mac && r.connection->0.dut_sock == c.dut_sock,
        final(p).payload@.len() == 6,
        ({
            let bytes = final(p).payload@;
            &&& local.ip == bytes[0] * 0x100_0000 + bytes[1] * 0x1_0000 + bytes[2] * 0x100
                + bytes[3]
            &&& local.port == bytes[4] + bytes[5] * 0x100
        }),
        old(p).data_len >= 54 ==> final(p).data_len == old(p).data_len + 6,
        old(p).data_len < 54 ==> final(p).data_len == 60,
        ({
            let carried = old(p).ops@ + seq![
                PacketOp::AddToPayloadTail(6),
                PacketOp::CopyPayload,
            ];
            let padded = if old(p).data_len < 54 {
                carried + seq![PacketOp::AddPadding((54 - old(p).data_len) as usize)]
            } else {
                carried
            };
            final(p).ops@ =~= padded + seq![
                PacketOp::UpdateTcpChecksum {
                    ip_length: final(h).ip.length,
                    src: final(h).ip.src,
                    dst: final(h).ip.dst,
                },
            ]
        }),
        final(e).counter_to == old(e).counter_to && final(e).counter_from == old(e).counter_from,
        final(e).config == old(e).config && final(e).ticks == old(e).ticks,
{
    let answer = Answer::NextReady { connection: Some(c), injector_runs };
    let step = old(e).step(old(p)@, *old(h), local, answer);
    frames::counted_one_by_one(old(e).counter_to, final(e).counter_to, step.counts_to);
    frames::counted_one_by_one(old(e).counter_from, final(e).counter_from, step.counts_from);
    frames::connection_is_seen_whole(r.connection->0);
    frames::connection_is_seen_whole(c);
    frames::frame_is_seen_whole(*final(p));
    frames::frame_is_seen_whole(*old(p));
    frames::outcome_is_seen_whole(r);
    let bytes = final(p).payload@;
    assert(local.ip / 0x1_0000 == local.ip / 0x100 / 0x100);
    assert(local.ip / 0x100_0000 == local.ip / 0x1_0000 / 0x100);
    assert(bytes[0] == (local.ip / 0x100_0000) as u8);
    assert(bytes[1] == (local.ip / 0x1_0000 % 0x100) as u8);
    assert(bytes[2] == (local.ip / 0x100 % 0x100) as u8);
    assert(bytes[3] == (local.ip % 0x100) as u8);
    assert(bytes[4] == (local.port % 0x100) as u8 && bytes[5] == (local.port / 0x100) as u8);
}

/// A tick is counted and dropped. A request for the counters is answered with the counters,
/// one for the records with the records, and no other report is made. The connections that
/// timed out are released on the ticks whose number is a multiple of the factor.
pub proof fn tick_turns_the_wheel(
    e: &mut Engine,
    p: &mut Packet,
    h: &mut HeaderState,
    local: SocketAddr,
    message: Option<Message>,
    r: Outcome,
)
    requires
        call_ensures(Engine::process, (e, p, h, &local, Answer::Polled(message)), r),
    ensures
        final(e).ticks == old(e).ticks + 1,
        r.release_timeouts == (final(e).ticks as int
            % old(e).config.wheel_tick_reduction_factor as int == 0),
        r.report == Some(Report::Counters) <==> message == Some(Message::FetchCounter),
        r.report == Some(Report::Records) <==> message == Some(Message::FetchCRecords),
        r.report is None <==> message is None,
        r.verdict == (Verdict { group: 0, release: None, ready: None }),
        r.connection is None,
        r.stamps@.len() == 0 && r.schedule is None && !r.stop_injector,
        frames::passed_on(*old(h), *final(h)),
        frames::same_frame(*old(p), *final(p)),
        final(e).counter_to == old(e).counter_to && final(e).counter_from == old(e).counter_from,
        final(e).config == old(e).config,
{
    let step = old(e).step(old(p)@, *old(h), local, Answer::Polled(message));
    frames::counted_one_by_one(old(e).counter_to, final(e).counter_to, step.counts_to);
    frames::counted_one_by_one(old(e).counter_from, final(e).counter_from, step.counts_from);
    frames::frame_is_seen_whole(*final(p));
    frames::outcome_is_seen_whole(r);
}

/// The ticks of one turn of the wheel fit into its slot, and one more would not.
pub proof fn ticks_fill_the_slot(resolution: u64, tick_length: u64, r: u64)
    requires
        call_ensures(wheel_tick_reduction_factor, (resolution, tick_length), r),
        0 < tick_length < resolution,
    ensures
        r >= 1,
        r * tick_length <= resolution < (r + 1) * tick_length,
{
    let f = tick_length as int;
    vstd::arithmetic::div_mod::lemma_fundamental_div_mod(resolution as int, f);
    vstd::arithmetic::div_mod::lemma_mod_bound(resolution as int, f);
    assert(r * f == f * r && (r + 1) * f == f * r + f) by (nonlinear_arith);
}

/// A slot longer than a tick has a number of ticks.
pub proof fn slots_may_be_longer_than_ticks(resolution: u64, tick_length: u64)
    requires
        0 < tick_length < resolution,
    ensures
        call_requires(wheel_tick_reduction_factor, (resolution, tick_length)),
{
}

/// Each request has its own report.
pub proof fn reports_answer_requests(message: Option<Message>, r: Option<Report>)
    requires
        call_ensures(report, (message,), r),
    ensures
        r == Some(Report::Counters) <==> message == Some(Message::FetchCounter),
        r == Some(Report::Records) <==> message == Some(Message::FetchCRecords),
        r is None <==> message is None,
{
}

/// The injector is started again by the first ready connection, not by a later one.
pub proof fn first_ready_connection_restarts_injector(n: usize, r: bool)
    requires
        call_ensures(restarts_injector, (n,), r),
    ensures
        n == 1 <==> r,
{
}

} // verus!
