use nftraffic::connection::{Connection, ConRecord, RecordOp, SideState, TcpState};
use nftraffic::headers::{
    do_ttl, make_reply_packet, set_header, HeaderState, IpHeader, L234Data, MacAddress,
    MacHeader, SocketAddr, TcpHeader,
};
use nftraffic::packet::{can_remove_tcp_options, remove_tcp_options, Packet, PacketOp};
use nftraffic::payload::{octets, reply_payload};
use nftraffic::segments::{generate_syn, make_payload_packet, syn_received, synack_received};
use nftraffic::seqnum::{advance, client_seqn, server_seqn};

const PEER: MacAddress = MacAddress(0x02, 0, 0, 0, 0, 0x01);
const OWN: MacAddress = MacAddress(0x02, 0, 0, 0, 0, 0x02);

fn headers() -> HeaderState {
    HeaderState {
        mac: MacHeader { src: PEER, dst: OWN, etype: 0x0800 },
        ip: IpHeader {
            src: 0x0a00_0001,
            dst: 0x0a00_0002,
            ttl: 64,
            length: 40,
            checksum_due: false,
        },
        tcp: TcpHeader {
            src_port: 4000,
            dst_port: 5000,
            seq_num: 1000,
            ack_num: 77,
            data_offset: 5,
            window_size: 1,
            syn: false,
            ack: false,
            fin: false,
            rst: false,
            psh: false,
        },
    }
}

fn connection(port: u16) -> Connection {
    let closed = SideState { state: TcpState::Closed, fin_wait_1_or_later: false };
    Connection {
        port,
        con_rec: ConRecord { server_index: 0, c_state: closed, s_state: closed, ops: Vec::new() },
        c_seqn_nxt: 0,
        c_ackn_nxt: 0,
        s_seqn: 0,
        dut_mac: None,
        dut_sock: None,
    }
}

fn host(last: u8) -> L234Data {
    L234Data {
        mac: MacAddress(0x02, 0, 0, 0, 1, last),
        ip: 0xc0a8_0100 + last as u32,
        port: 8000 + last as u16,
    }
}

#[test]
fn sequence_numbers_wrap() {
    assert_eq!(advance(5, 3), 8);
    assert_eq!(advance(u32::MAX, 1), 0);
    assert_eq!(advance(u32::MAX - 1, 6), 4);
}

#[test]
fn initial_sequence_numbers() {
    assert_eq!(client_seqn(0), 123456);
    assert_eq!(client_seqn(1), 127552);
    assert_eq!(client_seqn(0xf_ffff), 123456 - 4096);
    assert_eq!(client_seqn(0x10_0000), 123456);
    assert_eq!(server_seqn(1), 123520);
    assert_eq!(server_seqn(0x400_0000), 123456);
    assert_eq!(server_seqn(0x3ff_ffff), 123456 - 64);
}

#[test]
fn ttl_stops_at_zero() {
    let mut h = headers();
    do_ttl(&mut h);
    assert_eq!(h.ip.ttl, 63);
    assert!(h.ip.checksum_due);
    h.ip.ttl = 0;
    do_ttl(&mut h);
    assert_eq!(h.ip.ttl, 0);
}

#[test]
fn reply_swaps_addresses() {
    let mut h = headers();
    make_reply_packet(&mut h);
    assert_eq!(h.mac, MacHeader { src: OWN, dst: PEER, etype: 0x0800 });
    assert_eq!((h.ip.src, h.ip.dst), (0x0a00_0002, 0x0a00_0001));
    assert_eq!((h.tcp.src_port, h.tcp.dst_port), (5000, 4000));
    assert!(h.tcp.ack);
    assert_eq!(h.tcp.ack_num, 1001);
    assert_eq!(h.tcp.seq_num, 1000);
}

#[test]
fn reply_to_reply() {
    let mut h = headers();
    make_reply_packet(&mut h);
    make_reply_packet(&mut h);
    assert_eq!(h.mac, headers().mac);
    assert_eq!(h.ip, headers().ip);
    assert_eq!(h.tcp.src_port, 4000);
    assert_eq!(h.tcp.dst_port, 5000);
}

#[test]
fn reply_acknowledges_across_the_wrap() {
    let mut h = headers();
    h.tcp.seq_num = u32::MAX;
    make_reply_packet(&mut h);
    assert_eq!(h.tcp.ack_num, 0);
}

#[test]
fn header_for_a_server() {
    let mut h = headers();
    set_header(&host(9), 1234, &mut h, &host(1));
    assert_eq!(h.mac.dst, host(9).mac);
    assert_eq!(h.mac.src, host(1).mac);
    assert_eq!((h.ip.src, h.ip.dst), (0xc0a8_0101, 0xc0a8_0109));
    assert_eq!((h.tcp.src_port, h.tcp.dst_port), (1234, 8009));
    assert!(h.ip.checksum_due);
}

#[test]
fn options_are_cut_off() {
    let mut h = headers();
    h.tcp.data_offset = 10;
    h.ip.length = 60;
    let mut p = Packet::new(74);
    assert!(can_remove_tcp_options(&p, &h));
    remove_tcp_options(&mut p, &mut h);
    assert_eq!(h.tcp.data_offset, 5);
    assert_eq!(h.ip.length, 40);
    assert!(h.ip.checksum_due);
    assert_eq!(p.data_len, 60);
    assert_eq!(p.ops, vec![PacketOp::TrimPayload(14)]);
}

#[test]
fn all_options_are_cut_off_a_long_frame() {
    let mut h = headers();
    h.tcp.data_offset = 6;
    h.ip.length = 44;
    let mut p = Packet::new(90);
    remove_tcp_options(&mut p, &mut h);
    assert_eq!(p.data_len, 86);
    assert_eq!(p.ops, vec![PacketOp::TrimPayload(4)]);
}

#[test]
fn no_options_no_change() {
    let mut h = headers();
    let mut p = Packet::new(20);
    assert!(can_remove_tcp_options(&p, &h));
    remove_tcp_options(&mut p, &mut h);
    assert_eq!(h, headers());
    assert_eq!(p.data_len, 20);
    assert!(p.ops.is_empty());
}

#[test]
fn options_of_a_runt_frame_stay() {
    let mut h = headers();
    h.tcp.data_offset = 6;
    h.ip.length = 44;
    assert!(!can_remove_tcp_options(&Packet::new(59), &h));
    h.ip.length = 3;
    assert!(!can_remove_tcp_options(&Packet::new(60), &h));
}

#[test]
fn socket_payload() {
    assert_eq!(octets(0xc0a8_0102), [192, 168, 1, 2]);
    let bytes = reply_payload(&SocketAddr { ip: 0xc0a8_0102, port: 0x1f90 });
    assert_eq!(bytes, vec![192, 168, 1, 2, 0x90, 0x1f]);
}

#[test]
fn socket_payload_tells_sockets_apart() {
    let a = reply_payload(&SocketAddr { ip: 0x0102_0304, port: 0x0506 });
    let b = reply_payload(&SocketAddr { ip: 0x0102_0304, port: 0x0605 });
    assert_ne!(a, b);
    let back: ([u8; 4], u16) = bincode::deserialize(&a).unwrap();
    assert_eq!(back, ([1, 2, 3, 4], 0x0506));
}

#[test]
fn syn_is_answered() {
    let mut h = headers();
    h.tcp.syn = true;
    let mut p = Packet::new(60);
    let mut c = connection(7);
    syn_received(&mut p, &mut c, &mut h, 2);
    assert_eq!(c.s_seqn, 123456 + 128);
    assert_eq!(c.dut_mac, Some(headers().mac));
    assert_eq!(c.dut_sock, Some(SocketAddr { ip: 0x0a00_0001, port: 4000 }));
    assert_eq!(c.con_rec.ops, vec![RecordOp::PushSState(TcpState::SynReceived)]);
    assert!(h.tcp.syn && h.tcp.ack);
    assert_eq!(h.tcp.seq_num, 123456 + 128);
    assert_eq!(h.tcp.ack_num, 1001);
    assert_eq!(
        p.ops,
        vec![PacketOp::UpdateTcpChecksum {
            ip_length: 40,
            src: 0x0a00_0002,
            dst: 0x0a00_0001,
        }]
    );
}

#[test]
fn syn_ack_is_answered() {
    let mut h = headers();
    h.tcp.syn = true;
    h.tcp.ack = true;
    let mut p = Packet::new(60);
    let mut c = connection(7);
    c.c_seqn_nxt = 123457;
    synack_received(&mut p, &mut c, &mut h);
    assert!(!h.tcp.syn && h.tcp.ack);
    assert_eq!(h.tcp.seq_num, 123457);
    assert_eq!(h.tcp.ack_num, 1001);
    assert_eq!(c.c_ackn_nxt, 1001);
    assert_eq!(p.ops.len(), 1);
}

#[test]
fn syns_go_round_the_servers() {
    let servers = vec![host(1), host(2), host(3)];
    let mut stamps = Vec::new();
    let mut n = 0usize;
    let mut seen = Vec::new();
    for i in 0..4u16 {
        let mut h = headers();
        h.mac.etype = 0x1010;
        h.tcp.ack = true;
        h.tcp.psh = true;
        let mut p = Packet::new(60);
        let mut c = connection(100 + i);
        generate_syn(&mut p, &mut c, &mut h, &host(50), &servers, &mut stamps, &mut n);
        assert_eq!(h.mac.etype, 0x0800);
        assert!(h.tcp.syn && !h.tcp.ack && !h.tcp.psh);
        assert_eq!(h.tcp.window_size, 5840);
        assert_eq!(h.tcp.ack_num, 0);
        assert_eq!(h.tcp.seq_num, 123456 + 4096 * i as u32);
        assert_eq!(c.c_seqn_nxt, 123457 + 4096 * i as u32);
        assert_eq!(h.tcp.src_port, 100 + i);
        assert_eq!(h.ip.src, host(50).ip);
        seen.push((c.con_rec.server_index, h.ip.dst));
    }
    assert_eq!(n, 4);
    assert_eq!(stamps, vec![0]);
    assert_eq!(
        seen,
        vec![(0, host(1).ip), (1, host(2).ip), (2, host(3).ip), (0, host(1).ip)]
    );
}

#[test]
fn payload_segments_are_contiguous_and_padded() {
    let servers = vec![host(1), host(2)];
    let payload = vec![1u8, 2, 3, 4, 5, 6];
    let mut c = connection(9);
    c.con_rec.server_index = 1;
    c.c_seqn_nxt = u32::MAX - 2;
    c.c_ackn_nxt = 555;
    let mut h = headers();
    h.tcp.syn = true;
    let mut p = Packet::new(50);
    make_payload_packet(&mut p, &mut c, &mut h, &host(50), &servers, &payload);
    assert_eq!(h.tcp.seq_num, u32::MAX - 2);
    assert_eq!(h.tcp.ack_num, 555);
    assert!(h.tcp.ack && h.tcp.psh && !h.tcp.syn);
    assert_eq!(h.ip.length, 46);
    assert_eq!(h.ip.dst, host(2).ip);
    assert_eq!(p.data_len, 60);
    assert_eq!(p.payload, payload);
    assert_eq!(
        p.ops,
        vec![
            PacketOp::AddToPayloadTail(6),
            PacketOp::CopyPayload,
            PacketOp::AddPadding(4),
            PacketOp::UpdateTcpChecksum { ip_length: 46, src: host(50).ip, dst: host(2).ip },
        ]
    );
    let mut h2 = headers();
    let mut p2 = Packet::new(54);
    make_payload_packet(&mut p2, &mut c, &mut h2, &host(50), &servers, &payload);
    assert_eq!(h2.tcp.seq_num, 3);
    assert_eq!(p2.data_len, 60);
    assert_eq!(p2.ops.len(), 3);
    assert_eq!(c.c_seqn_nxt, 9);
}

#[test]
fn options_are_cut_off_only_once() {
    let mut h = headers();
    h.tcp.data_offset = 8;
    h.ip.length = 52;
    let mut p = Packet::new(100);
    remove_tcp_options(&mut p, &mut h);
    let once = h;
    remove_tcp_options(&mut p, &mut h);
    assert_eq!(h, once);
    assert_eq!(p.data_len, 88);
    assert_eq!(p.ops, vec![PacketOp::TrimPayload(12)]);
}
