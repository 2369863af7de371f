use nftraffic::connection::{Connection, ConRecord, RecordOp, SideState, TcpState};
use nftraffic::counter::TcpControls;
use nftraffic::engine::{restarts_injector, Answer, Engine, Lookup, Timeout};
use nftraffic::headers::{
    HeaderState, IpHeader, L234Data, MacAddress, MacHeader, SocketAddr, TcpHeader,
};
use nftraffic::packet::Packet;
use nftraffic::setup::{input_schedule, setup_generator, PipelineId, Setup};
use nftraffic::steering::{IpFlow, Steering, L2_KNI, L2_TCP};
use nftraffic::timer::{wheel_tick_reduction_factor, Message, Report};
use nftraffic::verdict::{DUMP, TO_KNI, TO_PCI};

const ETYPE_PACKET: u16 = 0x1010;
const ETYPE_TIMER: u16 = 0x1011;
const LOCAL: SocketAddr = SocketAddr { ip: 0x0a00_0105, port: 9000 };

fn host(last: u8) -> L234Data {
    L234Data {
        mac: MacAddress(2, 0, 0, 0, 1, last),
        ip: 0xc0a8_0100 + last as u32,
        port: 8000 + last as u16,
    }
}

fn setup(nr_connections: usize) -> Setup {
    Setup {
        nr_connections,
        me: host(50),
        flow_ip: 0x0a00_0104,
        pipeline_ip: 0x0a00_0105,
        tcp_min_port: 0x4000,
        servers: vec![host(1), host(2)],
        etype_packet: ETYPE_PACKET,
        etype_timer: ETYPE_TIMER,
        established: Some(200),
        millis_to_cycles: 2_270_000,
        wheel_resolution: 100,
        tick_length: 30,
    }
}

fn engine(nr_connections: usize) -> Engine {
    setup_generator(setup(nr_connections)).engine
}

fn headers(etype: u16, dst_port: u16) -> HeaderState {
    HeaderState {
        mac: MacHeader {
            src: MacAddress(2, 0, 0, 0, 0, 1),
            dst: MacAddress(2, 0, 0, 0, 0, 2),
            etype,
        },
        ip: IpHeader { src: 1, dst: 2, ttl: 64, length: 40, checksum_due: false },
        tcp: TcpHeader {
            src_port: 4000,
            dst_port,
            seq_num: 1000,
            ack_num: 77,
            data_offset: 5,
            window_size: 1,
            syn: false,
            ack: false,
            fin: false,
            rst: false,
            psh: false,
        },
    }
}

fn connection(port: u16, c: TcpState, s: TcpState) -> Connection {
    let side = |state: TcpState| SideState { state, fin_wait_1_or_later: false };
    Connection {
        port,
        con_rec: ConRecord {
            server_index: 1,
            c_state: side(c),
            s_state: side(s),
            ops: Vec::new(),
        },
        c_seqn_nxt: 0,
        c_ackn_nxt: 0,
        s_seqn: 0,
        dut_mac: None,
        dut_sock: None,
    }
}

fn steering() -> Steering {
    setup_generator(setup(1)).steering
}

#[test]
fn mac_filter() {
    let s = steering();
    assert!(s.accepts_mac(&host(50).mac, false, false));
    assert!(!s.accepts_mac(&host(51).mac, false, false));
    assert!(s.accepts_mac(&host(51).mac, true, false));
    assert!(s.accepts_mac(&host(51).mac, false, true));
}

#[test]
fn tcp_of_the_pipeline_is_kept() {
    let s = steering();
    let flow = |dst_ip: u32, dst_port: u16, proto: u8| {
        Some(IpFlow { dst_ip, dst_port, proto })
    };
    assert_eq!(s.l2_group(0x0800, flow(0x0a00_0104, 8050, 6)), L2_TCP);
    assert_eq!(s.l2_group(0x0800, flow(0x0a00_0105, 8050, 6)), L2_TCP);
    assert_eq!(s.l2_group(0x0800, flow(0x0a00_0105, 0x4000, 6)), L2_TCP);
    assert_eq!(s.l2_group(0x0800, flow(0x0a00_0105, 0xffff, 6)), L2_TCP);
    assert_eq!(s.l2_group(0x0800, flow(0x0a00_0105, 0x3fff, 6)), L2_KNI);
    assert_eq!(s.l2_group(0x0800, flow(host(50).ip, 8050, 6)), L2_KNI);
    assert_eq!(s.l2_group(0x0800, flow(0x0a00_0104, 8050, 17)), L2_KNI);
    assert_eq!(s.l2_group(0x0806, None), L2_KNI);
    assert_eq!(s.l2_group(0x0806, flow(0x0a00_0104, 8050, 6)), L2_KNI);
}

#[test]
fn setup_of_a_pipeline() {
    let pipeline = setup_generator(setup(5));
    assert_eq!(pipeline.engine.config.me.ip, 0x0a00_0104);
    assert_eq!(pipeline.engine.config.me.mac, host(50).mac);
    assert_eq!(pipeline.engine.config.wheel_tick_reduction_factor, 3);
    assert_eq!(pipeline.engine.counter_to.get(TcpControls::SentSyn), 0);
    assert_eq!(pipeline.engine.ticks, 0);
}

#[test]
fn pipeline_ids() {
    let id = PipelineId::new(5, 3, 2);
    assert_eq!((id.core, id.port_id, id.rxq), (5, 3, 2));
    let id = PipelineId::new(-1, 0x1_0007, 2);
    assert_eq!((id.core, id.port_id), (0xffff, 7));
}

#[test]
fn inputs_take_turns() {
    let schedule = input_schedule();
    assert_eq!(schedule, vec![0, 2, 0, 2, 0, 2, 0, 2, 0, 2, 1]);
}

#[test]
fn reduction_factor() {
    assert_eq!(wheel_tick_reduction_factor(227_000_000, 22_700), 10_000);
    assert_eq!(wheel_tick_reduction_factor(5, 4), 1);
}

#[test]
fn lookups() {
    let e = engine(1);
    let mut h = headers(0x0800, 9000);
    assert_eq!(e.lookup(&h, 9000), Lookup::FindSource(SocketAddr { ip: 1, port: 4000 }));
    h.tcp.syn = true;
    assert_eq!(e.lookup(&h, 9000), Lookup::InsertSource(SocketAddr { ip: 1, port: 4000 }));
    assert_eq!(e.lookup(&h, 9001), Lookup::FindPort(9000));
    assert_eq!(e.lookup(&headers(ETYPE_PACKET, 9000), 9000), Lookup::Create);
    assert_eq!(e.lookup(&headers(ETYPE_TIMER, 9000), 9000), Lookup::Poll);
    assert_eq!(engine(0).lookup(&headers(ETYPE_PACKET, 9000), 9000), Lookup::NextReady);
}

#[test]
fn opens_as_many_connections_as_asked_for() {
    let mut e = engine(2);
    let mut ports = Vec::new();
    let mut stamps = Vec::new();
    for port in [0x4000u16, 0x4001] {
        let mut h = headers(ETYPE_PACKET, 0);
        let mut p = Packet::new(60);
        assert_eq!(e.lookup(&h, LOCAL.port), Lookup::Create);
        let answer = Answer::Created {
            ready_connections: 0,
            connection: Some(connection(port, TcpState::Closed, TcpState::Closed)),
        };
        assert!(e.can_process(&p, &h, &LOCAL, &answer));
        let out = e.process(&mut p, &mut h, &LOCAL, answer);
        assert_eq!(out.verdict.group, TO_PCI);
        assert_eq!(out.schedule, Some(Timeout { cycles: 454_000_000, port }));
        assert_eq!(out.stop_injector, port == 0x4001);
        let c = out.connection.unwrap();
        assert_eq!(c.con_rec.ops, vec![RecordOp::PushCState(TcpState::SynSent)]);
        assert_eq!(h.ip.ttl, 63);
        assert!(h.tcp.syn);
        ports.push(h.tcp.dst_port);
        stamps.extend(out.stamps);
    }
    assert_eq!(ports, vec![8001, 8002]);
    assert_eq!(stamps, vec![0, 2]);
    assert_eq!(e.counter_to.get(TcpControls::SentSyn), 2);
    assert_eq!(e.lookup(&headers(ETYPE_PACKET, 0), LOCAL.port), Lookup::NextReady);
}

#[test]
fn injector_goes_on_while_connections_are_ready() {
    let mut e = engine(1);
    let mut h = headers(ETYPE_PACKET, 0);
    let mut p = Packet::new(60);
    let answer = Answer::Created {
        ready_connections: 3,
        connection: Some(connection(0x4000, TcpState::Closed, TcpState::Closed)),
    };
    let out = e.process(&mut p, &mut h, &LOCAL, answer);
    assert_eq!(out.stamps, vec![0, 1]);
    assert!(!out.stop_injector);
}

#[test]
fn no_connection_to_open() {
    let mut e = engine(1);
    let mut h = headers(ETYPE_PACKET, 0);
    let mut p = Packet::new(60);
    let answer = Answer::Created { ready_connections: 0, connection: None };
    let out = e.process(&mut p, &mut h, &LOCAL, answer);
    assert_eq!(out.verdict.group, DUMP);
    assert!(out.connection.is_none() && out.stamps.is_empty() && out.schedule.is_none());
    assert!(!out.stop_injector);
    assert_eq!(e.counter_to.get(TcpControls::SentSyn), 0);
    assert_eq!(h.mac.etype, ETYPE_PACKET);
    assert_eq!(h.ip.ttl, 63);
}

#[test]
fn payload_on_a_ready_connection() {
    let mut e = engine(0);
    let mut h = headers(ETYPE_PACKET, 0);
    let mut p = Packet::new(54);
    let mut c = connection(0x4000, TcpState::Established, TcpState::Closed);
    c.c_seqn_nxt = 100;
    c.c_ackn_nxt = 200;
    let answer = Answer::NextReady { connection: Some(c), injector_runs: true };
    assert!(e.can_process(&p, &h, &LOCAL, &answer));
    let out = e.process(&mut p, &mut h, &LOCAL, answer);
    assert_eq!(out.verdict.group, TO_PCI);
    assert!(!out.stop_injector);
    assert_eq!(out.connection.unwrap().c_seqn_nxt, 106);
    assert_eq!(p.payload, vec![10, 0, 1, 5, 0x28, 0x23]);
    assert_eq!(p.data_len, 60);
    assert_eq!(h.ip.length, 46);
    assert_eq!(h.ip.dst, host(2).ip);
}

#[test]
fn injector_stops_without_ready_connection() {
    let mut e = engine(0);
    for runs in [true, false] {
        let mut h = headers(ETYPE_PACKET, 0);
        let mut p = Packet::new(54);
        let answer = Answer::NextReady { connection: None, injector_runs: runs };
        let out = e.process(&mut p, &mut h, &LOCAL, answer);
        assert_eq!(out.verdict.group, DUMP);
        assert_eq!(out.stop_injector, runs);
    }
}

#[test]
fn injector_restarts_with_first_ready_connection() {
    assert!(restarts_injector(1));
    assert!(!restarts_injector(0));
    assert!(!restarts_injector(2));
}

#[test]
fn wheel_turns_every_third_tick() {
    let mut e = engine(0);
    let mut turns = Vec::new();
    for i in 1..=10u64 {
        let mut h = headers(ETYPE_TIMER, 0);
        let mut p = Packet::new(60);
        let message = match i {
            2 => Some(Message::FetchCounter),
            5 => Some(Message::FetchCRecords),
            _ => None,
        };
        let out = e.process(&mut p, &mut h, &LOCAL, Answer::Polled(message));
        assert_eq!(out.verdict.group, DUMP);
        let report = match i {
            2 => Some(Report::Counters),
            5 => Some(Report::Records),
            _ => None,
        };
        assert_eq!(out.report, report);
        if out.release_timeouts {
            turns.push(i);
        }
    }
    assert_eq!(turns, vec![3, 6, 9]);
    assert_eq!(e.ticks, 10);
}

#[test]
fn syn_without_resources_is_counted() {
    let mut e = engine(0);
    let mut h = headers(0x0800, LOCAL.port);
    h.tcp.syn = true;
    let mut p = Packet::new(60);
    let out = e.process(&mut p, &mut h, &LOCAL, Answer::Source(None));
    assert_eq!(out.verdict.group, DUMP);
    assert_eq!(e.counter_from.get(TcpControls::RecvSyn), 1);
    assert_eq!(e.counter_from.get(TcpControls::SentSynAck), 0);
}

#[test]
fn first_syn_is_number_one() {
    let mut e = engine(0);
    let mut h = headers(0x0800, LOCAL.port);
    h.tcp.syn = true;
    let mut p = Packet::new(60);
    let c = connection(1, TcpState::Closed, TcpState::Closed);
    let out = e.process(&mut p, &mut h, &LOCAL, Answer::Source(Some(c)));
    assert_eq!(out.verdict.group, TO_PCI);
    assert_eq!(h.tcp.seq_num, 123456 + 64);
    assert_eq!(e.counter_from.get(TcpControls::RecvSyn), 1);
    assert_eq!(e.counter_from.get(TcpControls::SentSynAck), 1);
    assert_eq!(e.counter_to.get(TcpControls::RecvSyn), 0);
}

#[test]
fn unknown_source_is_dropped() {
    let mut e = engine(0);
    let mut h = headers(0x0800, LOCAL.port);
    h.tcp.ack = true;
    let mut p = Packet::new(60);
    let out = e.process(&mut p, &mut h, &LOCAL, Answer::Source(None));
    assert_eq!(out.verdict.group, DUMP);
    assert_eq!(e.counter_from.get(TcpControls::RecvSyn), 0);
}

#[test]
fn unknown_port_goes_to_the_kernel() {
    let mut e = engine(0);
    let mut h = headers(0x0800, 0x4000);
    let mut p = Packet::new(60);
    let out = e.process(&mut p, &mut h, &LOCAL, Answer::Port(None));
    assert_eq!(out.verdict.group, TO_KNI);
    assert_eq!(h.ip.ttl, 63);
    assert_eq!(h.tcp, headers(0x0800, 0x4000).tcp);
}

#[test]
fn handshake_of_a_client() {
    let mut e = engine(1);
    let mut h = headers(ETYPE_PACKET, 0);
    let mut p = Packet::new(60);
    let answer = Answer::Created {
        ready_connections: 0,
        connection: Some(connection(0x4000, TcpState::Closed, TcpState::Closed)),
    };
    let out = e.process(&mut p, &mut h, &LOCAL, answer);
    let mut c = out.connection.unwrap();
    assert_eq!(h.tcp.seq_num, 123456);
    c.con_rec.c_state = SideState { state: TcpState::SynSent, fin_wait_1_or_later: false };
    c.con_rec.ops.clear();
    let mut h = headers(0x0800, 0x4000);
    h.tcp.syn = true;
    h.tcp.ack = true;
    h.tcp.seq_num = 999_999;
    let mut p = Packet::new(60);
    let answer = Answer::Port(Some(c));
    assert!(e.can_process(&p, &h, &LOCAL, &answer));
    let out = e.process(&mut p, &mut h, &LOCAL, answer);
    assert_eq!(out.verdict.ready, Some(0x4000));
    assert_eq!(h.tcp.seq_num, 123457);
    assert_eq!(h.tcp.ack_num, 1_000_000);
    assert_eq!(out.connection.unwrap().c_ackn_nxt, 1_000_000);
    assert_eq!(e.counter_to.get(TcpControls::SentAck), 1);
}

#[test]
fn what_cannot_be_processed() {
    let mut e = engine(1);
    let h = headers(ETYPE_PACKET, 0);
    let p = Packet::new(60);
    let created = || Answer::Created {
        ready_connections: 0,
        connection: Some(connection(0x4000, TcpState::Closed, TcpState::Closed)),
    };
    assert!(!e.can_process(&p, &h, &LOCAL, &Answer::Port(None)));
    assert!(e.can_process(&p, &h, &LOCAL, &created()));
    e.config.established = None;
    assert!(!e.can_process(&p, &h, &LOCAL, &created()));
    e.config.established = Some(u64::MAX);
    assert!(!e.can_process(&p, &h, &LOCAL, &created()));
    e.config.established = Some(1);
    e.config.servers.clear();
    assert!(!e.can_process(&p, &h, &LOCAL, &created()));

    let mut e = engine(0);
    let ready = || Answer::NextReady {
        connection: Some(connection(0x4000, TcpState::Established, TcpState::Closed)),
        injector_runs: true,
    };
    assert!(e.can_process(&p, &h, &LOCAL, &ready()));
    let mut long = h;
    long.ip.length = u16::MAX - 5;
    assert!(!e.can_process(&p, &long, &LOCAL, &ready()));
    assert!(!e.can_process(&Packet::new(usize::MAX), &h, &LOCAL, &ready()));
    e.config.servers.truncate(1);
    assert!(!e.can_process(&p, &h, &LOCAL, &ready()));

    let tick = headers(ETYPE_TIMER, 0);
    assert!(e.can_process(&p, &tick, &LOCAL, &Answer::Polled(None)));
    e.ticks = u64::MAX;
    assert!(!e.can_process(&p, &tick, &LOCAL, &Answer::Polled(None)));

    let mut syn = headers(0x0800, LOCAL.port);
    syn.tcp.syn = true;
    syn.tcp.data_offset = 6;
    let source = || Answer::Source(Some(connection(1, TcpState::Closed, TcpState::Closed)));
    assert!(e.can_process(&p, &syn, &LOCAL, &source()));
    assert!(!e.can_process(&Packet::new(59), &syn, &LOCAL, &source()));
    e.counter_from.recv_syn = usize::MAX;
    assert!(!e.can_process(&p, &syn, &LOCAL, &source()));
    assert!(!e.can_process(&p, &syn, &LOCAL, &Answer::Source(None)));
}

#[test]
fn payload_starts_right_after_the_syn() {
    let mut e = engine(1);
    let mut h = headers(ETYPE_PACKET, 0);
    let mut p = Packet::new(60);
    let answer = Answer::Created {
        ready_connections: 0,
        connection: Some(connection(0x4000, TcpState::Closed, TcpState::Closed)),
    };
    let mut c = e.process(&mut p, &mut h, &LOCAL, answer).connection.unwrap();
    let isn = h.tcp.seq_num;
    c.con_rec.c_state = SideState { state: TcpState::SynSent, fin_wait_1_or_later: false };

    let mut h = headers(0x0800, 0x4000);
    h.tcp.syn = true;
    h.tcp.ack = true;
    let mut p = Packet::new(60);
    let c = e.process(&mut p, &mut h, &LOCAL, Answer::Port(Some(c))).connection.unwrap();
    // the record of the connection keeps the entry that the SYN made
    assert_eq!(
        c.con_rec.ops,
        vec![RecordOp::PushCState(TcpState::SynSent), RecordOp::CEstablished]
    );

    let mut h = headers(ETYPE_PACKET, 0);
    let mut p = Packet::new(60);
    let answer = Answer::NextReady { connection: Some(c), injector_runs: true };
    e.process(&mut p, &mut h, &LOCAL, answer);
    assert_eq!(h.tcp.seq_num, isn + 1);
    assert_eq!(h.tcp.ack_num, 1001);
}

#[test]
fn fin_answer_follows_syn_ack() {
    let mut e = engine(0);
    let mut h = headers(0x0800, LOCAL.port);
    h.tcp.syn = true;
    let mut p = Packet::new(60);
    let c = connection(1, TcpState::Closed, TcpState::Closed);
    let mut c = e.process(&mut p, &mut h, &LOCAL, Answer::Source(Some(c))).connection.unwrap();
    let syn_ack = h.tcp.seq_num;
    c.con_rec.s_state = SideState { state: TcpState::Established, fin_wait_1_or_later: false };

    let mut h = headers(0x0800, LOCAL.port);
    h.tcp.fin = true;
    h.tcp.ack = true;
    let mut p = Packet::new(60);
    let out = e.process(&mut p, &mut h, &LOCAL, Answer::Source(Some(c)));
    assert_eq!(out.verdict.group, TO_PCI);
    assert!(h.tcp.fin && h.tcp.ack);
    assert_eq!(h.tcp.seq_num, syn_ack + 1);
    assert_eq!(e.counter_from.get(TcpControls::SentFinAck), 1);
}
