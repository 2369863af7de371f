//! Laws of a pipeline: how it is set up, which frames it keeps, what it looks up for a frame
//! and which frames it can process.

use crate::connection::{Connection, TcpState};
use crate::counter::{TcpControls, TcpCounter};
use crate::engine::{Answer, Config, Engine, Lookup, Outcome};
use crate::headers::{HeaderState, MacAddress, SocketAddr};
use crate::laws::frames;
use crate::packet::Packet;
use crate::setup::{input_schedule, setup_generator, Pipeline, PipelineId, Setup};
use crate::steering::{IpFlow, Steering};
use crate::timer::Message;
use vstd::prelude::*;

verus! {

/// A frame is kept if it is addressed to the pipeline, or to a group that the pipeline
/// belongs to, and only then.
pub proof fn frames_to_others_are_not_kept(
    s: Steering,
    dst: MacAddress,
    is_multicast: bool,
    is_broadcast: bool,
    r: bool,
)
    requires
        call_ensures(Steering::accepts_mac, (&s, &dst, is_multicast, is_broadcast), r),
    ensures
        dst == s.mac ==> r,
        is_multicast || is_broadcast ==> r,
        dst != s.mac && !is_multicast && !is_broadcast ==> !r,
{
}

/// TCP to the address of the engine or of the pipeline is handled by the pipeline if it goes
/// to the port of the engine or to any port from the lowest one of its connections upwards.
pub proof fn own_tcp_is_kept(s: Steering, flow: IpFlow, r: usize)
    requires
        call_ensures(Steering::l2_group, (&s, 0x0800u16, Some(flow)), r),
        flow.proto == 6,
        flow.dst_ip == s.ip || flow.dst_ip == s.pipeline_ip,
        flow.dst_port == s.port || flow.dst_port >= s.tcp_min_port,
    ensures
        r == 1,
{
}

/// All other traffic goes to the kernel: what is not IPv4, what is not TCP, what goes to
/// another address, and what goes to a lower port that is not the engine's.
pub proof fn other_traffic_goes_to_the_kernel(
    s: Steering,
    etype: u16,
    flow: Option<IpFlow>,
    r: usize,
)
    requires
        call_ensures(Steering::l2_group, (&s, etype, flow), r),
        etype == 0x0800 ==> flow is Some,
        etype != 0x0800 || flow->0.proto != 6 || (flow->0.dst_ip != s.ip && flow->0.dst_ip
            != s.pipeline_ip) || (flow->0.dst_port != s.port && flow->0.dst_port < s.tcp_min_port),
    ensures
        r == 0,
{
}

/// If the pipeline keeps the traffic to one of the ports of its connections, it keeps that
/// to every higher port.
pub proof fn higher_ports_are_kept_too(s: Steering, low: IpFlow, high: IpFlow, r1: usize, r2: usize)
    requires
        call_ensures(Steering::l2_group, (&s, 0x0800u16, Some(low)), r1),
        call_ensures(Steering::l2_group, (&s, 0x0800u16, Some(high)), r2),
        s.tcp_min_port <= low.dst_port <= high.dst_port,
        high.dst_ip == low.dst_ip && high.proto == low.proto,
    ensures
        r1 == 1 <==> r2 == 1,
{
}

/// Every frame can be sorted, an IPv4 frame by its fields.
pub proof fn every_frame_may_be_sorted(s: Steering, etype: u16, flow: IpFlow)
    ensures
        call_requires(Steering::l2_group, (&s, etype, Some(flow))),
        etype != 0x0800 ==> call_requires(Steering::l2_group, (&s, etype, None::<IpFlow>)),
{
}

/// A frame of the injector asks for a new connection until all are opened, then for a ready
/// one, whatever else its headers hold.
pub proof fn injected_frames_look_for_connections(
    e: Engine,
    h: HeaderState,
    special_port: u16,
    r: Lookup,
)
    requires
        call_ensures(Engine::lookup, (&e, &h, special_port), r),
        h.mac.etype == e.config.etype_packet,
    ensures
        e.counter_to.sent_syn < e.config.nr_connections <==> r == Lookup::Create,
        e.counter_to.sent_syn >= e.config.nr_connections <==> r == Lookup::NextReady,
{
}

/// A tick asks for a request of the main program, and nothing else does.
pub proof fn ticks_poll(e: Engine, h: HeaderState, special_port: u16, r: Lookup)
    requires
        call_ensures(Engine::lookup, (&e, &h, special_port), r),
        e.config.etype_timer != e.config.etype_packet,
    ensures
        h.mac.etype == e.config.etype_timer <==> r == Lookup::Poll,
{
}

/// A segment from the network asks for the connection with its sender if it goes to the
/// port on which the pipeline listens, where a SYN asks for a new one too, and for the
/// connection on its destination port otherwise.
pub proof fn segments_look_for_their_connection(
    e: Engine,
    h: HeaderState,
    special_port: u16,
    r: Lookup,
)
    requires
        call_ensures(Engine::lookup, (&e, &h, special_port), r),
        h.mac.etype != e.config.etype_packet && h.mac.etype != e.config.etype_timer,
    ensures
        h.tcp.dst_port == special_port && h.tcp.syn ==> r == Lookup::InsertSource(
            SocketAddr { ip: h.ip.src, port: h.tcp.src_port },
        ),
        h.tcp.dst_port == special_port && !h.tcp.syn ==> r == Lookup::FindSource(
            SocketAddr { ip: h.ip.src, port: h.tcp.src_port },
        ),
        h.tcp.dst_port != special_port ==> r == Lookup::FindPort(h.tcp.dst_port),
{
}

/// A new pipeline has its configuration and has counted nothing.
pub proof fn new_engine_starts_from_zero(config: Config, r: Engine)
    requires
        call_ensures(Engine::new, (config,), r),
    ensures
        r.config == config,
        r.ticks == 0,
        forall|c: TcpCounter| call_ensures(TcpCounter::new, (), c) ==> r.counter_to == c
            && r.counter_from == c,
{
    lemma_zero(r.counter_to);
    lemma_zero(r.counter_from);
    assert forall|c: TcpCounter| call_ensures(TcpCounter::new, (), c) implies r.counter_to == c
        && r.counter_from == c by {
        frames::new_counters_are_zero(c);
    }
}

/// Counters whose counts are zero hold zeros.
proof fn lemma_zero(r: TcpCounter)
    requires
        forall|k: TcpControls| #[trigger] r.count(k) == 0,
    ensures
        r.sent_syn == 0 && r.sent_syn_ack == 0 && r.sent_ack == 0 && r.sent_fin_ack == 0,
        r.recv_syn == 0 && r.recv_syn_ack == 0 && r.recv_syn_ack2 == 0,
        r.recv_fin == 0 && r.recv_fin_ack == 0 && r.recv_fin_ack2 == 0,
        r.recv_rst == 0 && r.unexpected == 0,
{
    assert(r.count(TcpControls::SentSyn) == 0 && r.count(TcpControls::SentSynAck) == 0);
    assert(r.count(TcpControls::SentAck) == 0 && r.count(TcpControls::SentFinAck) == 0);
    assert(r.count(TcpControls::RecvSyn) == 0 && r.count(TcpControls::RecvSynAck) == 0);
    assert(r.count(TcpControls::RecvSynAck2) == 0 && r.count(TcpControls::RecvFin) == 0);
    assert(r.count(TcpControls::RecvFinAck) == 0 && r.count(TcpControls::RecvFinAck2) == 0);
    assert(r.count(TcpControls::RecvRst) == 0 && r.count(TcpControls::Unexpected) == 0);
}

/// A pipeline opens its connections from the configured hardware address and port and from
/// the IP address by which traffic is steered to it; to that address and to its own one it
/// answers. The rest of the configuration is what it was set up with.
pub proof fn pipeline_is_what_it_was_set_up_for(setup: Setup, r: Pipeline)
    requires
        call_ensures(setup_generator, (setup,), r),
        0 < setup.tick_length < setup.wheel_resolution,
    ensures
        r.steering.mac == setup.me.mac && r.steering.port == setup.me.port,
        r.steering.ip == setup.flow_ip && r.steering.pipeline_ip == setup.pipeline_ip,
        r.steering.tcp_min_port == setup.tcp_min_port,
        r.engine.config.me.mac == setup.me.mac && r.engine.config.me.port == setup.me.port,
        r.engine.config.me.ip == setup.flow_ip,
        r.engine.config.nr_connections == setup.nr_connections,
        r.engine.config.servers == setup.servers,
        r.engine.config.etype_packet == setup.etype_packet,
        r.engine.config.etype_timer == setup.etype_timer,
        r.engine.config.established == setup.established,
        r.engine.config.millis_to_cycles == setup.millis_to_cycles,
        ({
            let factor = r.engine.config.wheel_tick_reduction_factor;
            factor * setup.tick_length <= setup.wheel_resolution < (factor + 1) * setup.tick_length
        }),
        r.engine.ticks == 0,
        r.engine.counter_to.sent_syn == 0 && r.engine.counter_to.recv_rst == 0,
        r.engine.counter_from == r.engine.counter_to,
{
    lemma_zero(r.engine.counter_to);
    lemma_zero(r.engine.counter_from);
    let f = setup.tick_length as int;
    let q = r.engine.config.wheel_tick_reduction_factor as int;
    vstd::arithmetic::div_mod::lemma_fundamental_div_mod(setup.wheel_resolution as int, f);
    vstd::arithmetic::div_mod::lemma_mod_bound(setup.wheel_resolution as int, f);
    assert(q * f == f * q && (q + 1) * f == f * q + f) by (nonlinear_arith);
}

/// A pipeline can be set up whenever a slot of the wheel is longer than a tick.
pub proof fn pipeline_may_be_set_up(setup: Setup)
    requires
        0 < setup.tick_length < setup.wheel_resolution,
    ensures
        call_requires(setup_generator, (setup,)),
{
}

/// A pipeline is named by its core, port and queue; of a number that takes more than 16 bits
/// the multiple of 2^16 is left out.
pub proof fn pipeline_is_named(core: i32, port_id: i32, rxq: u16, r: PipelineId)
    requires
        call_ensures(PipelineId::new, (core, port_id, rxq), r),
    ensures
        0 <= core <= 0xffff ==> r.core == core,
        0 <= port_id <= 0xffff ==> r.port_id == port_id,
        (core - r.core) % 0x1_0000 == 0,
        (port_id - r.port_id) % 0x1_0000 == 0,
        r.rxq == rxq,
{
}

/// In a round of eleven, injected frames and frames from the network take turns, and one tick
/// ends the round.
pub proof fn inputs_take_turns(r: Vec<usize>)
    requires
        call_ensures(input_schedule, (), r),
    ensures
        r@.len() == 11,
        forall|i: int|
            #![trigger r@[i]]
            0 <= i < 10 ==> r@[i] == (if i % 2 == 0 {
                0usize
            } else {
                2usize
            }),
        r@[10] == 1,
{
}

/// However a frame is processed, no more connections are opened than asked for, and the
/// timer wheel goes on turning.
pub proof fn processing_keeps_the_limits(
    e: &mut Engine,
    p: &mut Packet,
    h: &mut HeaderState,
    local: SocketAddr,
    answer: Answer,
    r: Outcome,
)
    requires
        call_ensures(Engine::process, (e, p, h, &local, answer), r),
    ensures
        final(e).counter_to.sent_syn <= final(e).config.nr_connections,
        final(e).config.wheel_tick_reduction_factor > 0,
        final(e).config == old(e).config,
{
}

/// What a pipeline says it can process, it may be given.
pub proof fn what_can_be_processed_may_be(
    e: &mut Engine,
    p: &mut Packet,
    h: &mut HeaderState,
    local: SocketAddr,
    answer: Answer,
)
    requires
        call_ensures(Engine::can_process, (&*old(e), &*old(p), &*old(h), &local, &answer), true),
        old(e).counter_to.sent_syn <= old(e).config.nr_connections,
        old(e).config.wheel_tick_reduction_factor > 0,
    ensures
        call_requires(Engine::process, (e, p, h, &local, answer)),
{
}

/// An answer to another question than the one that was asked cannot be processed.
pub proof fn answers_to_other_questions_are_refused(
    e: Engine,
    p: Packet,
    h: HeaderState,
    local: SocketAddr,
    answer: Answer,
    asked: Lookup,
)
    requires
        call_ensures(Engine::lookup, (&e, &h, local.port), asked),
        call_ensures(Engine::can_process, (&e, &p, &h, &local, &answer), true),
    ensures
        asked is Create <==> answer is Created,
        asked is NextReady <==> answer is NextReady,
        asked is Poll <==> answer is Polled,
        asked is InsertSource || asked is FindSource <==> answer is Source,
        asked is FindPort <==> answer is Port,
{
}

/// An injected frame can become the SYN of a new connection if connections are still to be
/// opened, there is a server, and the timeout can be set.
pub proof fn syns_can_be_made(
    e: Engine,
    p: Packet,
    h: HeaderState,
    local: SocketAddr,
    ready_connections: usize,
    connection: Option<Connection>,
    r: bool,
)
    requires
        call_ensures(
            Engine::can_process,
            (&e, &p, &h, &local, &Answer::Created { ready_connections, connection }),
            r,
        ),
        h.mac.etype == e.config.etype_packet,
        e.counter_to.sent_syn < e.config.nr_connections,
        connection is None || (e.config.servers@.len() > 0 && e.config.established is Some
            && e.config.established->0 * e.config.millis_to_cycles <= u64::MAX),
    ensures
        r,
{
}

/// An injected frame can carry a payload once all connections are opened, if the connection
/// has a server and the datagram and the frame have room for six bytes more.
pub proof fn payloads_can_be_sent(
    e: Engine,
    p: Packet,
    h: HeaderState,
    local: SocketAddr,
    connection: Option<Connection>,
    injector_runs: bool,
    r: bool,
)
    requires
        call_ensures(
            Engine::can_process,
            (&e, &p, &h, &local, &Answer::NextReady { connection, injector_runs }),
            r,
        ),
        h.mac.etype == e.config.etype_packet,
        e.counter_to.sent_syn >= e.config.nr_connections,
        connection is None || (connection->0.con_rec.server_index < e.config.servers@.len()
            && h.ip.length + 6 <= u16::MAX && p.data_len + 6 <= usize::MAX),
    ensures
        r,
{
}

/// A tick can be processed as long as the ticks can be counted.
pub proof fn ticks_can_be_processed(
    e: Engine,
    p: Packet,
    h: HeaderState,
    local: SocketAddr,
    message: Option<Message>,
    r: bool,
)
    requires
        call_ensures(Engine::can_process, (&e, &p, &h, &local, &Answer::Polled(message)), r),
        h.mac.etype == e.config.etype_timer && h.mac.etype != e.config.etype_packet,
        e.ticks < u64::MAX,
    ensures
        r,
{
}

/// A segment to the port on which the pipeline listens can be processed if the counters that
/// it raises have room and, where it is a SYN to be answered, its options can be removed.
pub proof fn server_segments_can_be_processed(
    e: Engine,
    p: Packet,
    h: HeaderState,
    local: SocketAddr,
    connection: Option<Connection>,
    r: bool,
)
    requires
        call_ensures(Engine::can_process, (&e, &p, &h, &local, &Answer::Source(connection)), r),
        h.mac.etype != e.config.etype_packet && h.mac.etype != e.config.etype_timer,
        h.tcp.dst_port == local.port,
        h.tcp.syn ==> e.counter_from.recv_syn < usize::MAX,
        connection matches Some(c) ==> {
            let s = c.con_rec.s_state;
            let established = !h.tcp.syn && h.tcp.ack && s.state == TcpState::SynReceived;
            let fin = !h.tcp.syn && !established && h.tcp.fin;
            let rst = !h.tcp.syn && !established && !h.tcp.fin && h.tcp.rst;
            &&& h.tcp.syn && s.state == TcpState::Closed ==> {
                &&& e.counter_from.sent_syn_ack < usize::MAX
                &&& h.tcp.data_offset > 5 ==> p.data_len >= 60 && h.ip.length >= 4 * (
                h.tcp.data_offset - 5)
            }
            &&& established ==> e.counter_from.recv_syn_ack2 < usize::MAX
            &&& fin && s.fin_wait_1_or_later ==> e.counter_from.recv_fin_ack < usize::MAX
            &&& fin && !s.fin_wait_1_or_later ==> e.counter_from.recv_fin < usize::MAX
                && e.counter_from.sent_fin_ack < usize::MAX
            &&& rst ==> e.counter_from.recv_rst < usize::MAX
            &&& s.state == TcpState::LastAck ==> e.counter_from.recv_fin_ack2 < usize::MAX
        },
    ensures
        r,
{
    if connection is Some {
        let event = crate::server::server_event(h.tcp, connection->0.con_rec.s_state);
        assert(e.counter_from.has_room(crate::server::server_counts(event)));
    }
}

/// A segment to any other port can be processed if the counters that it raises have room.
pub proof fn client_segments_can_be_processed(
    e: Engine,
    p: Packet,
    h: HeaderState,
    local: SocketAddr,
    connection: Option<Connection>,
    r: bool,
)
    requires
        call_ensures(Engine::can_process, (&e, &p, &h, &local, &Answer::Port(connection)), r),
        h.mac.etype != e.config.etype_packet && h.mac.etype != e.config.etype_timer,
        h.tcp.dst_port != local.port,
        connection matches Some(c) ==> {
            let s = c.con_rec.c_state;
            let in_sequence = s.state == TcpState::SynSent || h.tcp.seq_num == c.c_ackn_nxt;
            let syn_ack = h.tcp.syn && h.tcp.ack;
            let fin = !syn_ack && h.tcp.fin;
            let rst = !syn_ack && !h.tcp.fin && h.tcp.rst;
            in_sequence ==> {
                &&& syn_ack ==> e.counter_to.recv_syn_ack < usize::MAX
                &&& syn_ack && (s.state == TcpState::SynSent || s.state == TcpState::Established)
                    ==> e.counter_to.sent_ack < usize::MAX
                &&& fin && s.fin_wait_1_or_later ==> e.counter_to.recv_fin_ack < usize::MAX
                &&& fin && !s.fin_wait_1_or_later ==> e.counter_to.recv_fin < usize::MAX
                    && e.counter_to.sent_fin_ack < usize::MAX
                &&& rst ==> e.counter_to.recv_rst < usize::MAX
                &&& s.state == TcpState::LastAck ==> e.counter_to.recv_fin_ack2 < usize::MAX
                &&& !h.tcp.ack ==> e.counter_to.unexpected < usize::MAX
            }
        },
    ensures
        r,
{
    if connection is Some {
        let event = crate::client::client_event(h.tcp, connection->0@);
        assert(e.counter_to.has_room(crate::client::client_counts(event)));
    }
}

} // verus!
