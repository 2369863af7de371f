use nftraffic::client::{classify_client, client_has_room, client_segment, ClientEvent};
use nftraffic::connection::{Connection, ConRecord, RecordOp, ReleaseCause, SideState, TcpState};
use nftraffic::counter::{TcpControls, TcpCounter};
use nftraffic::headers::{
    HeaderState, IpHeader, MacAddress, MacHeader, TcpHeader,
};
use nftraffic::packet::{Packet, PacketOp};
use nftraffic::server::{classify_server, server_has_room, server_segment, ServerEvent};
use nftraffic::verdict::{Verdict, DUMP, TO_KNI, TO_PCI};

fn headers(syn: bool, ack: bool, fin: bool, rst: bool) -> HeaderState {
    HeaderState {
        mac: MacHeader {
            src: MacAddress(2, 0, 0, 0, 0, 1),
            dst: MacAddress(2, 0, 0, 0, 0, 2),
            etype: 0x0800,
        },
        ip: IpHeader { src: 1, dst: 2, ttl: 64, length: 40, checksum_due: false },
        tcp: TcpHeader {
            src_port: 4000,
            dst_port: 5000,
            seq_num: 1000,
            ack_num: 77,
            data_offset: 5,
            window_size: 1,
            syn,
            ack,
            fin,
            rst,
            psh: false,
        },
    }
}

fn side(state: TcpState, fin_wait_1_or_later: bool) -> SideState {
    SideState { state, fin_wait_1_or_later }
}

fn connection(c_state: SideState, s_state: SideState) -> Connection {
    Connection {
        port: 6000,
        con_rec: ConRecord { server_index: 0, c_state, s_state, ops: Vec::new() },
        c_seqn_nxt: 200,
        c_ackn_nxt: 1000,
        s_seqn: 300,
        dut_mac: None,
        dut_sock: None,
    }
}

struct Seen {
    verdict: Verdict,
    ops: Vec<RecordOp>,
    counter: TcpCounter,
    h: HeaderState,
    p: Packet,
    c: Connection,
}

fn at_server(s: SideState, mut h: HeaderState) -> Seen {
    let mut c = connection(side(TcpState::Other, false), s);
    let mut p = Packet::new(60);
    let mut counter = TcpCounter::new();
    let verdict = server_segment(&mut p, &mut c, &mut h, &mut counter);
    let ops = c.con_rec.ops.clone();
    Seen { verdict, ops, counter, h, p, c }
}

fn at_client(s: SideState, mut h: HeaderState) -> Seen {
    let mut c = connection(s, side(TcpState::Other, false));
    let mut p = Packet::new(60);
    let mut counter = TcpCounter::new();
    let verdict = client_segment(&mut p, &mut c, &mut h, &mut counter);
    let ops = c.con_rec.ops.clone();
    Seen { verdict, ops, counter, h, p, c }
}

fn only(ks: &[TcpControls], counter: &TcpCounter) -> bool {
    let all = [
        TcpControls::SentSyn,
        TcpControls::SentSynAck,
        TcpControls::SentAck,
        TcpControls::SentFinAck,
        TcpControls::RecvSyn,
        TcpControls::RecvSynAck,
        TcpControls::RecvSynAck2,
        TcpControls::RecvFin,
        TcpControls::RecvFinAck,
        TcpControls::RecvFinAck2,
        TcpControls::RecvRst,
        TcpControls::Unexpected,
    ];
    all.iter().all(|k| counter.get(*k) == if ks.contains(k) { 1 } else { 0 })
}

const PLAIN_DUMP: Verdict = Verdict { group: DUMP, release: None, ready: None };

#[test]
fn counters_count() {
    let mut c = TcpCounter::new();
    c.bump(TcpControls::RecvRst);
    c.bump(TcpControls::RecvRst);
    c.bump(TcpControls::SentSyn);
    assert_eq!(c.get(TcpControls::RecvRst), 2);
    assert_eq!(c.get(TcpControls::SentSyn), 1);
    assert_eq!(c.get(TcpControls::RecvSyn), 0);
    assert!(c.has_room_for(TcpControls::RecvRst));
    c.recv_rst = usize::MAX;
    assert!(!c.has_room_for(TcpControls::RecvRst));
}

#[test]
fn server_accepts_syn() {
    let s = at_server(side(TcpState::Closed, true), headers(true, false, false, false));
    assert_eq!(s.verdict, Verdict { group: TO_PCI, release: None, ready: None });
    assert!(only(&[TcpControls::SentSynAck], &s.counter));
    assert_eq!(s.ops, vec![RecordOp::PushSState(TcpState::SynReceived)]);
    assert!(s.h.tcp.syn && s.h.tcp.ack);
    assert_eq!(s.h.tcp.seq_num, s.c.s_seqn);
}

#[test]
fn server_ignores_second_syn() {
    let s = at_server(side(TcpState::Established, false), headers(true, false, false, false));
    assert_eq!(s.verdict, PLAIN_DUMP);
    assert!(only(&[], &s.counter));
    assert!(s.ops.is_empty());
    assert_eq!(s.h, headers(true, false, false, false));
}

#[test]
fn server_is_established_by_ack() {
    let s = at_server(side(TcpState::SynReceived, false), headers(false, true, true, false));
    assert_eq!(s.verdict, PLAIN_DUMP);
    assert!(only(&[TcpControls::RecvSynAck2], &s.counter));
    assert_eq!(s.ops, vec![RecordOp::SEstablished]);
}

#[test]
fn server_answers_fin() {
    let s = at_server(side(TcpState::Established, false), headers(false, true, true, false));
    assert_eq!(s.verdict.group, TO_PCI);
    assert!(only(&[TcpControls::RecvFin, TcpControls::SentFinAck], &s.counter));
    assert_eq!(
        s.ops,
        vec![
            RecordOp::CReleased(ReleaseCause::FinServer),
            RecordOp::PushSState(TcpState::LastAck),
        ]
    );
    assert!(s.h.tcp.fin && s.h.tcp.ack);
    assert_eq!(s.h.tcp.seq_num, 301);
    assert_eq!(s.c.s_seqn, 301);
    assert_eq!(s.h.tcp.ack_num, 1001);
    assert_eq!(
        s.p.ops,
        vec![PacketOp::UpdateTcpChecksum { ip_length: 40, src: 2, dst: 1 }]
    );
}

#[test]
fn server_takes_fin_reply() {
    let s = at_server(side(TcpState::Other, true), headers(false, true, true, false));
    assert_eq!(s.verdict, PLAIN_DUMP);
    assert!(only(&[TcpControls::RecvFinAck], &s.counter));
    assert_eq!(s.ops, vec![RecordOp::PushSState(TcpState::Closed)]);
}

#[test]
fn server_takes_rst() {
    let s = at_server(side(TcpState::Established, false), headers(false, true, false, true));
    assert_eq!(s.verdict, Verdict { group: DUMP, release: Some(6000), ready: None });
    assert!(only(&[TcpControls::RecvRst], &s.counter));
    assert_eq!(
        s.ops,
        vec![
            RecordOp::PushSState(TcpState::Closed),
            RecordOp::CReleased(ReleaseCause::RstServer),
        ]
    );
}

#[test]
fn server_takes_final_ack() {
    let s = at_server(side(TcpState::LastAck, true), headers(false, true, false, false));
    assert_eq!(s.verdict, Verdict { group: DUMP, release: Some(6000), ready: None });
    assert!(only(&[TcpControls::RecvFinAck2], &s.counter));
    assert_eq!(
        s.ops,
        vec![
            RecordOp::PushSState(TcpState::Closed),
            RecordOp::CReleased(ReleaseCause::FinServer),
        ]
    );
}

#[test]
fn server_drops_data() {
    let s = at_server(side(TcpState::Established, false), headers(false, true, false, false));
    assert_eq!(s.verdict, PLAIN_DUMP);
    assert!(only(&[], &s.counter));
    assert!(s.ops.is_empty());
}

#[test]
fn server_events() {
    let t = headers(false, true, true, false).tcp;
    assert_eq!(
        classify_server(&t, &side(TcpState::SynReceived, true)),
        ServerEvent::Established
    );
    assert_eq!(classify_server(&t, &side(TcpState::LastAck, true)), ServerEvent::FinReply);
    let mut full = TcpCounter::new();
    full.sent_fin_ack = usize::MAX;
    assert!(!server_has_room(&full, ServerEvent::Fin));
    assert!(server_has_room(&full, ServerEvent::Rst));
}

#[test]
fn client_is_established_by_syn_ack() {
    let mut h = headers(true, true, false, false);
    h.tcp.seq_num = 4711;
    let s = at_client(side(TcpState::SynSent, false), h);
    assert_eq!(s.verdict, Verdict { group: TO_PCI, release: None, ready: Some(6000) });
    assert!(only(&[TcpControls::RecvSynAck, TcpControls::SentAck], &s.counter));
    assert_eq!(s.ops, vec![RecordOp::CEstablished]);
    assert!(!s.h.tcp.syn && s.h.tcp.ack);
    assert_eq!(s.h.tcp.seq_num, 200);
    assert_eq!(s.h.tcp.ack_num, 4712);
    assert_eq!(s.c.c_ackn_nxt, 4712);
}

#[test]
fn client_acknowledges_repeated_syn_ack() {
    let s = at_client(side(TcpState::Established, false), headers(true, true, false, false));
    assert_eq!(s.verdict, Verdict { group: TO_PCI, release: None, ready: None });
    assert!(only(&[TcpControls::RecvSynAck, TcpControls::SentAck], &s.counter));
    assert!(s.ops.is_empty());
    assert_eq!(s.c.c_ackn_nxt, 1001);
}

#[test]
fn client_ignores_late_syn_ack() {
    let s = at_client(side(TcpState::LastAck, true), headers(true, true, false, false));
    assert_eq!(s.verdict, PLAIN_DUMP);
    assert!(only(&[TcpControls::RecvSynAck], &s.counter));
    assert_eq!(s.h, headers(true, true, false, false));
}

#[test]
fn client_refuses_wrong_sequence_number() {
    let mut h = headers(false, true, true, true);
    h.tcp.seq_num = 999;
    let s = at_client(side(TcpState::Established, false), h);
    assert_eq!(s.verdict, Verdict { group: TO_KNI, release: None, ready: None });
    assert!(only(&[], &s.counter));
    assert!(s.ops.is_empty());
    assert_eq!(s.h, h);
    assert!(s.p.ops.is_empty());
    assert_eq!(s.c.c_ackn_nxt, 1000);
}

#[test]
fn client_answers_fin() {
    let s = at_client(side(TcpState::Established, false), headers(false, true, true, false));
    assert_eq!(s.verdict, Verdict { group: TO_PCI, release: None, ready: None });
    assert!(only(&[TcpControls::RecvFin, TcpControls::SentFinAck], &s.counter));
    assert_eq!(s.ops, vec![RecordOp::PushCState(TcpState::LastAck)]);
    assert_eq!(s.h.tcp.seq_num, 200);
    assert_eq!(s.h.tcp.ack_num, 1001);
    assert_eq!(s.c.c_ackn_nxt, 1001);
    assert!(s.h.tcp.fin && s.h.tcp.ack);
}

#[test]
fn client_takes_fin_reply() {
    let s = at_client(side(TcpState::Other, true), headers(false, true, true, false));
    assert_eq!(s.verdict, PLAIN_DUMP);
    assert!(only(&[TcpControls::RecvFinAck], &s.counter));
    assert_eq!(s.ops, vec![RecordOp::PushCState(TcpState::Closed)]);
}

#[test]
fn client_takes_rst() {
    let s = at_client(side(TcpState::SynSent, false), headers(false, true, false, true));
    assert_eq!(s.verdict, Verdict { group: DUMP, release: Some(6000), ready: None });
    assert!(only(&[TcpControls::RecvRst], &s.counter));
    assert_eq!(
        s.ops,
        vec![
            RecordOp::PushCState(TcpState::Closed),
            RecordOp::CReleased(ReleaseCause::RstServer),
        ]
    );
}

#[test]
fn client_takes_final_ack() {
    let s = at_client(side(TcpState::LastAck, true), headers(false, true, false, false));
    assert_eq!(s.verdict, Verdict { group: DUMP, release: Some(6000), ready: None });
    assert!(only(&[TcpControls::RecvFinAck2], &s.counter));
    assert_eq!(
        s.ops,
        vec![
            RecordOp::PushCState(TcpState::Closed),
            RecordOp::CReleased(ReleaseCause::FinServer),
        ]
    );
}

#[test]
fn client_drops_plain_ack() {
    let s = at_client(side(TcpState::Established, false), headers(false, true, false, false));
    assert_eq!(s.verdict, PLAIN_DUMP);
    assert!(only(&[], &s.counter));
}

#[test]
fn client_hands_unexpected_segment_to_kernel() {
    let s = at_client(side(TcpState::Established, false), headers(false, false, false, false));
    assert_eq!(s.verdict, Verdict { group: TO_KNI, release: None, ready: None });
    assert!(only(&[TcpControls::Unexpected], &s.counter));
    // a SYN without ACK is not expected either
    let s = at_client(side(TcpState::SynSent, false), headers(true, false, false, false));
    assert_eq!(s.verdict.group, TO_KNI);
}

#[test]
fn client_events() {
    let c = connection(side(TcpState::SynSent, false), side(TcpState::Other, false));
    let mut t = headers(true, true, true, true).tcp;
    t.seq_num = 1;
    assert_eq!(classify_client(&t, &c), ClientEvent::SynAck);
    let mut full = TcpCounter::new();
    full.unexpected = usize::MAX;
    assert!(!client_has_room(&full, ClientEvent::Unexpected));
    assert!(client_has_room(&full, ClientEvent::WrongSeqn));
}
