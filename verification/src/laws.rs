//! What holds of the generator as a whole.
//!
//! The laws of this file relate several of its operations. Those in the modules below
//! speak of single calls: of what goes in and what comes out, field by field.

pub mod client_side;
pub mod frames;
pub mod injected;
pub mod pipeline;
pub mod server_side;

use crate::connection::{ConnectionView, RecordOp, TcpState};
use crate::counter::{TcpControls, TcpCounter};
use crate::engine::{self, Answer, Engine, OutcomeView, Step};
use crate::headers::{HeaderState, L234Data, SocketAddr, ETYPE_IPV4};
use crate::packet::{self, PacketOp, PacketView, MIN_FRAME_SIZE};
use crate::payload;
use crate::segments;
use crate::seqnum;
use crate::server::{self, ServerEvent};
use crate::timer;
use crate::verdict::{DUMP, TO_KNI, TO_PCI};
use vstd::arithmetic::div_mod::{
    lemma_add_mod_noop_right, lemma_fundamental_div_mod, lemma_fundamental_div_mod_converse,
    lemma_mod_bound, lemma_mod_decreases, lemma_truncate_middle,
};
use vstd::arithmetic::mul::lemma_mul_is_commutative;
use vstd::prelude::*;

verus! {

/// The answer to an answer travels the way of the first frame again.
pub proof fn reply_to_reply_goes_back(h: HeaderState)
    ensures
        h.reply().reply().mac == h.mac,
        h.reply().reply().ip == h.ip,
        h.reply().reply().tcp.src_port == h.tcp.src_port,
        h.reply().reply().tcp.dst_port == h.tcp.dst_port,
{
}

/// Every frame is put into one of the three groups that the pipeline is divided into.
pub proof fn group_is_known(
    engine: Engine,
    p: PacketView,
    h: HeaderState,
    local: SocketAddr,
    answer: Answer,
)
    ensures
        ({
            let group = engine.step(p, h, local, answer).out.verdict.group;
            group == DUMP || group == TO_PCI || group == TO_KNI
        }),
{
}

/// Only frames that are sent to the network are rewritten: a frame that is dropped or
/// handed to the kernel keeps its headers and its bytes, but for the hop count.
pub proof fn other_frames_are_untouched(
    engine: Engine,
    p: PacketView,
    h: HeaderState,
    local: SocketAddr,
    answer: Answer,
)
    requires
        engine.step(p, h, local, answer).out.verdict.group != TO_PCI,
    ensures
        engine.step(p, h, local, answer).h == h,
        engine.step(p, h, local, answer).p == p,
{
}

/// The last thing done to a frame that is sent to the network is to compute its TCP
/// checksum, and what the checksum covers of the IP header is what is sent.
pub proof fn sent_frames_are_checksummed(
    engine: Engine,
    p: PacketView,
    h: HeaderState,
    local: SocketAddr,
    answer: Answer,
)
    requires
        engine.step(p, h, local, answer).out.verdict.group == TO_PCI,
    ensures
        ({
            let step = engine.step(p, h, local, answer);
            let sent = step.h.one_hop_on();
            &&& step.p.ops.len() > 0
            &&& step.p.ops.last() == (PacketOp::UpdateTcpChecksum {
                ip_length: sent.ip.length,
                src: sent.ip.src,
                dst: sent.ip.dst,
            })
            &&& sent.ip.checksum_due
        }),
{
}

/// A received segment that is answered is answered to its sender, and the answer
/// acknowledges the segment.
pub proof fn answers_go_to_the_sender(
    engine: Engine,
    p: PacketView,
    h: HeaderState,
    local: SocketAddr,
    answer: Answer,
)
    requires
        answer is Source || answer is Port,
        engine.step(p, h, local, answer).out.verdict.group == TO_PCI,
    ensures
        ({
            let sent = engine.step(p, h, local, answer).h;
            &&& sent.mac.dst == h.mac.src && sent.mac.src == h.mac.dst
            &&& sent.ip.dst == h.ip.src && sent.ip.src == h.ip.dst
            &&& sent.tcp.dst_port == h.tcp.src_port && sent.tcp.src_port == h.tcp.dst_port
            &&& sent.tcp.ack && sent.tcp.ack_num == seqnum::seqn_after(h.tcp.seq_num, 1)
        }),
{
}

/// A segment that the generator starts itself leaves from its own address, as IPv4, for
/// one of the servers.
pub proof fn own_segments_go_to_a_server(
    engine: Engine,
    p: PacketView,
    h: HeaderState,
    local: SocketAddr,
    answer: Answer,
)
    requires
        answer is Created || answer is NextReady,
        engine.processable(p, h, local, answer),
        engine.step(p, h, local, answer).out.verdict.group == TO_PCI,
    ensures
        ({
            let step = engine.step(p, h, local, answer);
            let c = step.out.connection->0;
            let server = engine.config.servers@[c.server_index as int];
            &&& step.out.connection is Some
            &&& c.server_index < engine.config.servers@.len()
            &&& step.h.mac.etype == ETYPE_IPV4
            &&& step.h.mac.src == engine.config.me.mac && step.h.mac.dst == server.mac
            &&& step.h.ip.src == engine.config.me.ip && step.h.ip.dst == server.ip
            &&& step.h.tcp.src_port == c.port && step.h.tcp.dst_port == server.port
        }),
{
    let servers = engine.config.servers@.len() as int;
    if answer is Created {
        lemma_mod_bound(engine.counter_to.sent_syn as int, servers);
        lemma_mod_decreases(engine.counter_to.sent_syn as nat, servers as nat);
    }
}

/// A SYN is sent only as long as fewer connections than asked for were opened.
pub proof fn syns_are_limited(
    engine: Engine,
    p: PacketView,
    h: HeaderState,
    local: SocketAddr,
    answer: Answer,
)
    requires
        engine.processable(p, h, local, answer),
        engine.step(p, h, local, answer).counts_to.contains(TcpControls::SentSyn),
    ensures
        engine.counter_to.sent_syn < engine.config.nr_connections,
{
}

/// Each side counts its own segments, and counts a control segment as sent exactly when
/// the frame is sent.
pub proof fn sent_segments_are_counted(
    engine: Engine,
    p: PacketView,
    h: HeaderState,
    local: SocketAddr,
    answer: Answer,
)
    ensures
        ({
            let step = engine.step(p, h, local, answer);
            let sent = step.out.verdict.group == TO_PCI;
            match answer {
                Answer::Created { .. } => {
                    &&& step.counts_from =~= Set::empty()
                    &&& sent == step.counts_to.contains(TcpControls::SentSyn)
                },
                Answer::Source(_) => {
                    &&& step.counts_to =~= Set::empty()
                    &&& sent == (step.counts_from.contains(TcpControls::SentSynAck)
                        || step.counts_from.contains(TcpControls::SentFinAck))
                },
                Answer::Port(_) => {
                    &&& step.counts_from =~= Set::empty()
                    &&& sent == (step.counts_to.contains(TcpControls::SentAck)
                        || step.counts_to.contains(TcpControls::SentFinAck))
                },
                _ => step.counts_to =~= Set::empty() && step.counts_from =~= Set::empty(),
            }
        }),
{
}

/// A segment with an unexpected sequence number is handed to the kernel, and nothing
/// else comes of it: neither the connection nor a counter changes.
pub proof fn wrong_sequence_number_is_refused(
    engine: Engine,
    p: PacketView,
    h: HeaderState,
    c: ConnectionView,
)
    requires
        c.c_state.state != TcpState::SynSent,
        h.tcp.seq_num != c.c_ackn_nxt,
    ensures
        engine.port_step(p, h, Some(c)) == Step::idle(
            OutcomeView::only(engine::sends_to(TO_KNI), Some(c)),
            h,
            p,
        ),
{
    assert(engine.port_step(p, h, Some(c)) =~= Step::idle(
        OutcomeView::only(engine::sends_to(TO_KNI), Some(c)),
        h,
        p,
    ));
}

/// What the client side acknowledges is what it expects next.
pub proof fn acknowledged_is_expected(
    engine: Engine,
    p: PacketView,
    h: HeaderState,
    c: ConnectionView,
)
    requires
        engine.port_step(p, h, Some(c)).out.verdict.group == TO_PCI,
    ensures
        ({
            let step = engine.port_step(p, h, Some(c));
            &&& step.out.connection matches Some(after) && after.c_ackn_nxt == step.h.tcp.ack_num
            &&& step.h.tcp.seq_num == c.c_seqn_nxt
        }),
{
}

/// A SYN-ACK on a connection whose `n`-th SYN was sent is answered with the third
/// segment of the handshake, and makes the connection ready.
pub proof fn client_handshake(
    engine: Engine,
    p: PacketView,
    h: HeaderState,
    fresh: ConnectionView,
    n: nat,
    n_servers: nat,
    c: ConnectionView,
)
    requires
        c.c_state.state == TcpState::SynSent,
        c.c_seqn_nxt == segments::opened(fresh, n, n_servers).c_seqn_nxt,
        h.tcp.syn && h.tcp.ack,
    ensures
        ({
            let step = engine.port_step(p, h, Some(c));
            &&& step.out.verdict.group == TO_PCI
            &&& step.out.verdict.ready == Some(c.port)
            &&& !step.h.tcp.syn && step.h.tcp.ack
            &&& step.h.tcp.seq_num == seqnum::seqn_after(seqnum::client_isn(n), 1)
            &&& step.h.tcp.ack_num == seqnum::seqn_after(h.tcp.seq_num, 1)
            &&& step.out.connection matches Some(after) && after.ops == c.ops.push(
                RecordOp::CEstablished,
            )
        }),
{
}

/// A connection becomes ready by the first SYN-ACK that answers its SYN, and by nothing
/// else.
pub proof fn ready_after_first_syn_ack_only(
    engine: Engine,
    p: PacketView,
    h: HeaderState,
    local: SocketAddr,
    answer: Answer,
)
    ensures
        engine.step(p, h, local, answer).out.verdict.ready == match answer {
            Answer::Port(Some(c)) => if c@.c_state.state == TcpState::SynSent && h.tcp.syn
                && h.tcp.ack {
                Some(c.port)
            } else {
                None
            },
            _ => None,
        },
{
}

/// A SYN on a closed connection is answered with a SYN-ACK that carries the sequence
/// number kept for the connection, and the answer to a later FIN carries the next one.
pub proof fn server_handshake_and_close(
    h: HeaderState,
    c: ConnectionView,
    n: nat,
    fin: HeaderState,
    c2: ConnectionView,
)
    requires
        server::server_event(h.tcp, c.s_state) == ServerEvent::Syn,
        server::server_event(fin.tcp, c2.s_state) == ServerEvent::Fin,
        c2.s_seqn == server::server_connection(ServerEvent::Syn, c, h, n).s_seqn,
    ensures
        ({
            let syn_ack = server::server_headers(ServerEvent::Syn, h, c, n);
            let fin_ack = server::server_headers(ServerEvent::Fin, fin, c2, n);
            &&& syn_ack.tcp.syn && syn_ack.tcp.ack
            &&& syn_ack.tcp.seq_num == c2.s_seqn
            &&& fin_ack.tcp.fin && fin_ack.tcp.ack
            &&& fin_ack.tcp.seq_num == seqnum::seqn_after(syn_ack.tcp.seq_num, 1)
        }),
{
}

/// A port is released only with its connection, and the record of the connection then
/// ends with the cause.
pub proof fn release_is_recorded(
    engine: Engine,
    p: PacketView,
    h: HeaderState,
    local: SocketAddr,
    answer: Answer,
)
    requires
        engine.step(p, h, local, answer).out.verdict.release is Some,
    ensures
        ({
            let out = engine.step(p, h, local, answer).out;
            out.connection matches Some(c) && {
                &&& out.verdict.release == Some(c.port)
                &&& c.ops.len() > 0
                &&& c.ops.last() is CReleased
            }
        }),
{
}

/// The connection that was found for a frame, and no other, is handed back: on the same
/// port, with what its record held and at most two new entries.
pub proof fn record_only_grows(
    engine: Engine,
    p: PacketView,
    h: HeaderState,
    local: SocketAddr,
    answer: Answer,
)
    ensures
        ({
            let after = engine.step(p, h, local, answer).out.connection;
            match answer.found() {
                Some(c) => {
                    &&& after is Some
                    &&& after->0.port == c.port
                    &&& c.ops.len() <= after->0.ops.len() <= c.ops.len() + 2
                    &&& after->0.ops.take(c.ops.len() as int) =~= c.ops
                },
                None => after is None,
            }
        }),
{
}

/// The states that a connection enters are named ones.
pub proof fn entered_states_are_named(
    engine: Engine,
    p: PacketView,
    h: HeaderState,
    local: SocketAddr,
    answer: Answer,
    i: int,
)
    requires
        answer.found() matches Some(c) && c.ops.len() <= i,
        i < engine.step(p, h, local, answer).out.connection->0.ops.len(),
    ensures
        ({
            let op = engine.step(p, h, local, answer).out.connection->0.ops[i];
            &&& op != RecordOp::PushCState(TcpState::Other)
            &&& op != RecordOp::PushSState(TcpState::Other)
        }),
{
}

/// The payloads of a connection follow each other without a gap: the next one starts
/// where the last one ended.
pub proof fn payloads_are_contiguous(
    h1: HeaderState,
    h2: HeaderState,
    server: L234Data,
    me: L234Data,
    c: ConnectionView,
    sz1: nat,
    sz2: nat,
)
    ensures
        segments::payload_headers(
            h2,
            server,
            segments::payload_sent(c, sz1),
            me,
            sz2,
        ).tcp.seq_num == seqnum::seqn_after(
            segments::payload_headers(h1, server, c, me, sz1).tcp.seq_num,
            sz1 as int,
        ),
{
}

/// The first payload of a connection starts right after its SYN, whatever the handshake
/// acknowledged.
pub proof fn payload_follows_syn(
    syn: HeaderState,
    h: HeaderState,
    server: L234Data,
    me: L234Data,
    c: ConnectionView,
    n: nat,
    n_servers: nat,
    syn_ack: HeaderState,
    sz: nat,
)
    ensures
        segments::payload_headers(
            h,
            server,
            segments::acknowledged(segments::opened(c, n, n_servers), syn_ack),
            me,
            sz,
        ).tcp.seq_num == seqnum::seqn_after(
            segments::syn_headers(syn, server, c.port, me, n).tcp.seq_num,
            1,
        ),
        segments::payload_headers(
            h,
            server,
            segments::acknowledged(segments::opened(c, n, n_servers), syn_ack),
            me,
            sz,
        ).tcp.ack_num == seqnum::seqn_after(syn_ack.tcp.seq_num, 1),
{
}

/// Two SYNs start with the same sequence number only if their numbers differ by a
/// multiple of 2^20.
pub proof fn client_isns_repeat_every_2_20(m: nat, n: nat)
    ensures
        seqnum::client_isn(m) == seqnum::client_isn(n) <==> m % 0x10_0000 == n % 0x10_0000,
{
    lemma_spread(m as int, n as int, 4096, 0x10_0000);
}

/// The answers to two received SYNs start with the same sequence number only if the
/// numbers of the SYNs differ by a multiple of 2^26.
pub proof fn server_isns_repeat_every_2_26(m: nat, n: nat)
    ensures
        seqnum::server_isn(m) == seqnum::server_isn(n) <==> m % 0x400_0000 == n % 0x400_0000,
{
    lemma_spread(m as int, n as int, 64, 0x400_0000);
}

/// Numbers spread `d` apart in a ring of `d * r` meet again after `r` steps.
proof fn lemma_spread(m: int, n: int, d: int, r: int)
    requires
        m >= 0,
        n >= 0,
        (d == 4096 && r == 0x10_0000) || (d == 64 && r == 0x400_0000),
    ensures
        seqnum::seqn_after(seqnum::INITIAL_SEQN, m * d) == seqnum::seqn_after(
            seqnum::INITIAL_SEQN,
            n * d,
        ) <==> m % r == n % r,
{
    let base = seqnum::INITIAL_SEQN as int;
    let ring: int = 0x1_0000_0000;
    assert(d * r == ring);
    lemma_truncate_middle(m, d, r);
    lemma_truncate_middle(n, d, r);
    lemma_mul_is_commutative(m, d);
    lemma_mul_is_commutative(n, d);
    assert((m * d) % ring == d * (m % r));
    assert((n * d) % ring == d * (n % r));
    lemma_mod_bound(m, r);
    lemma_mod_bound(n, r);
    if d == 4096 {
        assert(d * (m % r) == 4096 * (m % r) && d * (n % r) == 4096 * (n % r));
    } else {
        assert(d * (m % r) == 64 * (m % r) && d * (n % r) == 64 * (n % r));
    }
    lemma_add_mod_noop_right(base, m * d, ring);
    lemma_add_mod_noop_right(base, n * d, ring);
}

/// Any `n_servers` SYNs in a row go to `n_servers` different servers: after the SYN
/// number `first` each server `s` gets exactly one of the next `n_servers` SYNs.
pub proof fn servers_take_turns(c: ConnectionView, first: nat, n_servers: nat, s: nat)
    requires
        0 < n_servers <= usize::MAX,
        s < n_servers,
    ensures
        exists|n: nat| #[trigger]
            segments::opened(c, n, n_servers).server_index == s && first <= n < first + n_servers,
        forall|m: nat, n: nat|
            first <= m < first + n_servers && first <= n < first + n_servers
                && #[trigger] segments::opened(c, m, n_servers).server_index
                == #[trigger] segments::opened(c, n, n_servers).server_index ==> m == n,
{
    let len = n_servers as int;
    let f = first as int;
    lemma_fundamental_div_mod(f, len);
    lemma_mod_bound(f, len);
    let q = f / len;
    let n = if s >= f % len {
        q * len + s
    } else {
        (q + 1) * len + s
    };
    assert(first <= n < first + n_servers && n % len == s) by {
        assert(len * q == q * len && (q + 1) * len == q * len + len) by (nonlinear_arith);
        let k = if s >= f % len {
            q
        } else {
            q + 1
        };
        lemma_fundamental_div_mod_converse(n, len, k, s as int);
    }
    assert(segments::opened(c, n as nat, n_servers).server_index == s);
    assert forall|m: nat, n: nat|
        first <= m < first + n_servers && first <= n < first + n_servers
            && #[trigger] segments::opened(c, m, n_servers).server_index
            == #[trigger] segments::opened(c, n, n_servers).server_index implies m == n by {
        lemma_mod_bound(m as int, len);
        lemma_mod_bound(n as int, len);
        lemma_fundamental_div_mod(m as int, len);
        lemma_fundamental_div_mod(n as int, len);
        let a = m as int / len;
        let b = n as int / len;
        assert(a == b) by (nonlinear_arith)
            requires
                len * a - len * b == m - n,
                -len < m - n < len,
                len > 0,
        ;
    }
}

/// How often the timer wheel was turned in the first `n` ticks.
pub open spec fn wheel_turns(n: nat, factor: nat) -> nat
    decreases n,
{
    if n == 0 {
        0
    } else {
        wheel_turns((n - 1) as nat, factor) + if timer::wheel_due(n as int, factor as int) {
            1nat
        } else {
            0
        }
    }
}

/// In any number of ticks the timer wheel is turned once for each full `factor` of them.
pub proof fn wheel_turns_at_its_resolution(n: nat, factor: nat)
    requires
        factor > 0,
    ensures
        wheel_turns(n, factor) == n / factor,
    decreases n,
{
    let f = factor as int;
    if n == 0 {
        lemma_fundamental_div_mod_converse(0, f, 0, 0);
    } else {
        let m = n - 1;
        wheel_turns_at_its_resolution(m as nat, factor);
        lemma_fundamental_div_mod(m, f);
        lemma_mod_bound(m, f);
        let q = m / f;
        assert(f * (q + 1) == f * q + f) by (nonlinear_arith);
        assert(q * f == f * q && (q + 1) * f == f * (q + 1)) by (nonlinear_arith);
        if m % f == f - 1 {
            lemma_fundamental_div_mod_converse(n as int, f, q + 1, 0);
        } else {
            lemma_fundamental_div_mod_converse(n as int, f, q, m % f + 1);
        }
    }
}

/// The payload tells sockets apart.
pub proof fn payload_identifies_socket(a: SocketAddr, b: SocketAddr)
    requires
        payload::socket_bytes(a) == payload::socket_bytes(b),
    ensures
        a == b,
{
    let x = payload::socket_bytes(a);
    let y = payload::socket_bytes(b);
    lemma_ip_from_octets(a.ip, x[0], x[1], x[2], x[3]);
    lemma_ip_from_octets(b.ip, y[0], y[1], y[2], y[3]);
    assert(a.ip == b.ip);
    assert(x[4] == (a.port % 0x100) as u8 && y[4] == (b.port % 0x100) as u8);
    assert(x[5] == (a.port / 0x100) as u8 && y[5] == (b.port / 0x100) as u8);
    assert(a.port == 0x100 * x[5] + x[4] && b.port == 0x100 * y[5] + y[4]);
}

/// An IPv4 address is the number that its octets make up.
proof fn lemma_ip_from_octets(ip: u32, o0: u8, o1: u8, o2: u8, o3: u8)
    requires
        o0 == (ip / 0x100_0000) as u8,
        o1 == (ip / 0x1_0000 % 0x100) as u8,
        o2 == (ip / 0x100 % 0x100) as u8,
        o3 == (ip % 0x100) as u8,
    ensures
        ip == o0 * 0x100_0000 + o1 * 0x1_0000 + o2 * 0x100 + o3,
{
    assert(ip / 0x1_0000 == ip / 0x100 / 0x100);
    assert(ip / 0x100_0000 == ip / 0x1_0000 / 0x100);
}

/// What is counted fixes the counters.
pub proof fn counts_fix_counters(
    before: TcpCounter,
    a: TcpCounter,
    b: TcpCounter,
    ks: Set<TcpControls>,
)
    requires
        a.counts_up(before, ks),
        b.counts_up(before, ks),
    ensures
        a == b,
{
    assert forall|k: TcpControls| #[trigger] a.count(k) == b.count(k) by {}
    assert(a.count(TcpControls::SentSyn) == b.count(TcpControls::SentSyn));
    assert(a.count(TcpControls::SentSynAck) == b.count(TcpControls::SentSynAck));
    assert(a.count(TcpControls::SentAck) == b.count(TcpControls::SentAck));
    assert(a.count(TcpControls::SentFinAck) == b.count(TcpControls::SentFinAck));
    assert(a.count(TcpControls::RecvSyn) == b.count(TcpControls::RecvSyn));
    assert(a.count(TcpControls::RecvSynAck) == b.count(TcpControls::RecvSynAck));
    assert(a.count(TcpControls::RecvSynAck2) == b.count(TcpControls::RecvSynAck2));
    assert(a.count(TcpControls::RecvFin) == b.count(TcpControls::RecvFin));
    assert(a.count(TcpControls::RecvFinAck) == b.count(TcpControls::RecvFinAck));
    assert(a.count(TcpControls::RecvFinAck2) == b.count(TcpControls::RecvFinAck2));
    assert(a.count(TcpControls::RecvRst) == b.count(TcpControls::RecvRst));
    assert(a.count(TcpControls::Unexpected) == b.count(TcpControls::Unexpected));
}

/// No frame is made shorter than the shortest Ethernet frame, and a frame with a payload
/// is never shorter.
pub proof fn frames_are_long_enough(
    engine: Engine,
    p: PacketView,
    h: HeaderState,
    local: SocketAddr,
    answer: Answer,
)
    requires
        engine.processable(p, h, local, answer),
    ensures
        p.data_len >= MIN_FRAME_SIZE ==> engine.step(p, h, local, answer).p.data_len
            >= MIN_FRAME_SIZE,
        answer matches Answer::NextReady { connection: Some(_), .. } ==> engine.step(
            p,
            h,
            local,
            answer,
        ).p.data_len >= MIN_FRAME_SIZE,
{
}

/// Once the options of a segment are removed, there is nothing left to remove.
pub proof fn options_are_removed_once(p: PacketView, h: HeaderState)
    ensures
        !packet::has_options(packet::headers_without_options(h)),
        packet::headers_without_options(packet::headers_without_options(h))
            == packet::headers_without_options(h),
        packet::frame_without_options(
            packet::frame_without_options(p, h),
            packet::headers_without_options(h),
        ) == packet::frame_without_options(p, h),
{
}

} // verus!
