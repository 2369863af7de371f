//! Laws of the operations on headers, frames, counters and sequence numbers.

use crate::connection::{Connection, RecordOp, ReleaseCause, TcpState};
use crate::counter::{TcpControls, TcpCounter};
use crate::engine::Outcome;
use crate::headers::{
    do_ttl, make_reply_packet, set_header, HeaderState, IpHeader, L234Data, SocketAddr, TcpHeader,
};
use crate::packet::{can_remove_tcp_options, remove_tcp_options, Packet, PacketOp};
use crate::payload::{octets, reply_payload};
use crate::segments::{generate_syn, make_payload_packet, syn_received, synack_received};
use crate::seqnum::{advance, client_seqn, server_seqn};
use vstd::prelude::*;

verus! {

/// One if it happened, else nothing.
pub open spec fn once(happened: bool) -> int {
    if happened {
        1
    } else {
        0
    }
}

/// The counters that differ by what was counted, one by one.
pub proof fn counted_one_by_one(before: TcpCounter, after: TcpCounter, ks: Set<TcpControls>)
    requires
        after.counts_up(before, ks),
    ensures
        after.sent_syn == before.sent_syn + once(ks.contains(TcpControls::SentSyn)),
        after.sent_syn_ack == before.sent_syn_ack + once(ks.contains(TcpControls::SentSynAck)),
        after.sent_ack == before.sent_ack + once(ks.contains(TcpControls::SentAck)),
        after.sent_fin_ack == before.sent_fin_ack + once(ks.contains(TcpControls::SentFinAck)),
        after.recv_syn == before.recv_syn + once(ks.contains(TcpControls::RecvSyn)),
        after.recv_syn_ack == before.recv_syn_ack + once(ks.contains(TcpControls::RecvSynAck)),
        after.recv_syn_ack2 == before.recv_syn_ack2 + once(ks.contains(TcpControls::RecvSynAck2)),
        after.recv_fin == before.recv_fin + once(ks.contains(TcpControls::RecvFin)),
        after.recv_fin_ack == before.recv_fin_ack + once(ks.contains(TcpControls::RecvFinAck)),
        after.recv_fin_ack2 == before.recv_fin_ack2 + once(ks.contains(TcpControls::RecvFinAck2)),
        after.recv_rst == before.recv_rst + once(ks.contains(TcpControls::RecvRst)),
        after.unexpected == before.unexpected + once(ks.contains(TcpControls::Unexpected)),
{
    assert(after.count(TcpControls::SentSyn) == after.sent_syn);
    assert(after.count(TcpControls::SentSynAck) == after.sent_syn_ack);
    assert(after.count(TcpControls::SentAck) == after.sent_ack);
    assert(after.count(TcpControls::SentFinAck) == after.sent_fin_ack);
    assert(after.count(TcpControls::RecvSyn) == after.recv_syn);
    assert(after.count(TcpControls::RecvSynAck) == after.recv_syn_ack);
    assert(after.count(TcpControls::RecvSynAck2) == after.recv_syn_ack2);
    assert(after.count(TcpControls::RecvFin) == after.recv_fin);
    assert(after.count(TcpControls::RecvFinAck) == after.recv_fin_ack);
    assert(after.count(TcpControls::RecvFinAck2) == after.recv_fin_ack2);
    assert(after.count(TcpControls::RecvRst) == after.recv_rst);
    assert(after.count(TcpControls::Unexpected) == after.unexpected);
}

/// A new set of counters holds zeros.
pub proof fn new_counters_are_zero(r: TcpCounter)
    requires
        call_ensures(TcpCounter::new, (), r),
    ensures
        r.sent_syn == 0 && r.sent_syn_ack == 0 && r.sent_ack == 0 && r.sent_fin_ack == 0,
        r.recv_syn == 0 && r.recv_syn_ack == 0 && r.recv_syn_ack2 == 0,
        r.recv_fin == 0 && r.recv_fin_ack == 0 && r.recv_fin_ack2 == 0,
        r.recv_rst == 0 && r.unexpected == 0,
{
    assert(r.count(TcpControls::SentSyn) == 0 && r.count(TcpControls::SentSynAck) == 0);
    assert(r.count(TcpControls::SentAck) == 0 && r.count(TcpControls::SentFinAck) == 0);
    assert(r.count(TcpControls::RecvSyn) == 0 && r.count(TcpControls::RecvSynAck) == 0);
    assert(r.count(TcpControls::RecvSynAck2) == 0 && r.count(TcpControls::RecvFin) == 0);
    assert(r.count(TcpControls::RecvFinAck) == 0 && r.count(TcpControls::RecvFinAck2) == 0);
    assert(r.count(TcpControls::RecvRst) == 0 && r.count(TcpControls::Unexpected) == 0);
}

/// Each control has a counter of its own, and reading a counter tells its value.
pub proof fn counters_are_read(c: TcpCounter, k: TcpControls, r: usize, room: bool)
    requires
        call_ensures(TcpCounter::get, (&c, k), r),
        call_ensures(TcpCounter::has_room_for, (&c, k), room),
    ensures
        k == TcpControls::SentSyn ==> r == c.sent_syn,
        k == TcpControls::SentSynAck ==> r == c.sent_syn_ack,
        k == TcpControls::SentAck ==> r == c.sent_ack,
        k == TcpControls::SentFinAck ==> r == c.sent_fin_ack,
        k == TcpControls::RecvSyn ==> r == c.recv_syn,
        k == TcpControls::RecvSynAck ==> r == c.recv_syn_ack,
        k == TcpControls::RecvSynAck2 ==> r == c.recv_syn_ack2,
        k == TcpControls::RecvFin ==> r == c.recv_fin,
        k == TcpControls::RecvFinAck ==> r == c.recv_fin_ack,
        k == TcpControls::RecvFinAck2 ==> r == c.recv_fin_ack2,
        k == TcpControls::RecvRst ==> r == c.recv_rst,
        k == TcpControls::Unexpected ==> r == c.unexpected,
        room == (r < usize::MAX),
{
}

/// Counting a control raises its counter by one and leaves all others alone.
pub proof fn counting_raises_one_counter(c: &mut TcpCounter, k: TcpControls)
    requires
        call_ensures(TcpCounter::bump, (c, k), ()),
    ensures
        final(c).sent_syn == old(c).sent_syn + once(k == TcpControls::SentSyn),
        final(c).sent_syn_ack == old(c).sent_syn_ack + once(k == TcpControls::SentSynAck),
        final(c).sent_ack == old(c).sent_ack + once(k == TcpControls::SentAck),
        final(c).sent_fin_ack == old(c).sent_fin_ack + once(k == TcpControls::SentFinAck),
        final(c).recv_syn == old(c).recv_syn + once(k == TcpControls::RecvSyn),
        final(c).recv_syn_ack == old(c).recv_syn_ack + once(k == TcpControls::RecvSynAck),
        final(c).recv_syn_ack2 == old(c).recv_syn_ack2 + once(k == TcpControls::RecvSynAck2),
        final(c).recv_fin == old(c).recv_fin + once(k == TcpControls::RecvFin),
        final(c).recv_fin_ack == old(c).recv_fin_ack + once(k == TcpControls::RecvFinAck),
        final(c).recv_fin_ack2 == old(c).recv_fin_ack2 + once(k == TcpControls::RecvFinAck2),
        final(c).recv_rst == old(c).recv_rst + once(k == TcpControls::RecvRst),
        final(c).unexpected == old(c).unexpected + once(k == TcpControls::Unexpected),
{
    counted_one_by_one(*old(c), *final(c), set![k]);
}

/// A counter below the largest number can be raised.
pub proof fn counting_has_room(c: &mut TcpCounter, k: TcpControls, r: usize)
    requires
        call_ensures(TcpCounter::get, (&*old(c), k), r),
        r < usize::MAX,
    ensures
        call_requires(TcpCounter::bump, (c, k)),
{
}

/// The view of a connection shows all that it holds.
pub proof fn connection_is_seen_whole(c: Connection)
    ensures
        c@.port == c.port,
        c@.server_index == c.con_rec.server_index,
        c@.c_state == c.con_rec.c_state,
        c@.s_state == c.con_rec.s_state,
        c@.ops == c.con_rec.ops@,
        c@.c_seqn_nxt == c.c_seqn_nxt,
        c@.c_ackn_nxt == c.c_ackn_nxt,
        c@.s_seqn == c.s_seqn,
        c@.dut_mac == c.dut_mac,
        c@.dut_sock == c.dut_sock,
{
}

/// The view of a frame shows all that it holds.
pub proof fn frame_is_seen_whole(p: Packet)
    ensures
        p@.data_len == p.data_len,
        p@.payload == p.payload@,
        p@.ops == p.ops@,
{
}

/// The view of an outcome shows all that it holds.
pub proof fn outcome_is_seen_whole(o: Outcome)
    ensures
        o@.verdict == o.verdict,
        o.connection matches Some(c) ==> o@.connection == Some(c@),
        o.connection is None ==> o@.connection is None,
        o@.stamps == o.stamps@,
        o@.schedule == o.schedule,
        o@.stop_injector == o.stop_injector,
        o@.report == o.report,
        o@.release_timeouts == o.release_timeouts,
{
}

/// An entry goes to the end of the record; nothing else of the connection changes.
pub proof fn entries_go_to_the_end(c: &mut Connection, state: TcpState, cause: ReleaseCause)
    requires
        call_ensures(Connection::push_c_state, (c, state), ()) || call_ensures(
            Connection::push_s_state,
            (c, state),
            (),
        ) || call_ensures(Connection::c_con_established, (c,), ()) || call_ensures(
            Connection::s_con_established,
            (c,),
            (),
        ) || call_ensures(Connection::c_released, (c, cause), ()),
    ensures
        final(c).con_rec.ops@.len() == old(c).con_rec.ops@.len() + 1,
        final(c).con_rec.ops@.drop_last() =~= old(c).con_rec.ops@,
        call_ensures(Connection::push_c_state, (c, state), ()) ==> final(c).con_rec.ops@.last()
            == RecordOp::PushCState(state),
        call_ensures(Connection::push_s_state, (c, state), ()) ==> final(c).con_rec.ops@.last()
            == RecordOp::PushSState(state),
        call_ensures(Connection::c_con_established, (c,), ()) ==> final(c).con_rec.ops@.last()
            == RecordOp::CEstablished,
        call_ensures(Connection::s_con_established, (c,), ()) ==> final(c).con_rec.ops@.last()
            == RecordOp::SEstablished,
        call_ensures(Connection::c_released, (c, cause), ()) ==> final(c).con_rec.ops@.last()
            == RecordOp::CReleased(cause),
        final(c).port == old(c).port,
        final(c).con_rec.server_index == old(c).con_rec.server_index,
        final(c).con_rec.c_state == old(c).con_rec.c_state,
        final(c).con_rec.s_state == old(c).con_rec.s_state,
        final(c).c_seqn_nxt == old(c).c_seqn_nxt,
        final(c).c_ackn_nxt == old(c).c_ackn_nxt,
        final(c).s_seqn == old(c).s_seqn,
        final(c).dut_mac == old(c).dut_mac,
        final(c).dut_sock == old(c).dut_sock,
{
    assert(final(c)@.ops.drop_last() =~= old(c)@.ops);
}

/// Sequence numbers are added like 32-bit numbers that wrap.
pub proof fn sequence_numbers_wrap(x: u32, n: u32, r: u32)
    requires
        call_ensures(advance, (x, n), r),
    ensures
        x + n <= u32::MAX ==> r == x + n,
        x + n > u32::MAX ==> r == x + n - 0x1_0000_0000,
{
}

/// The numbering of SYNs starts at 123456 and goes on in steps of 2^12.
pub proof fn client_numbers_are_spread(n: usize, r: u32, next: u32)
    requires
        n < usize::MAX,
        call_ensures(client_seqn, (n,), r),
        call_ensures(client_seqn, ((n + 1) as usize,), next),
    ensures
        n == 0 ==> r == 123456,
        next == (if r <= u32::MAX - 4096 {
            r + 4096
        } else {
            r + 4096 - 0x1_0000_0000
        }),
{
}

/// The numbering of answers to SYNs starts at 123456 and goes on in steps of 2^6.
pub proof fn server_numbers_are_spread(n: usize, r: u32, next: u32)
    requires
        n < usize::MAX,
        call_ensures(server_seqn, (n,), r),
        call_ensures(server_seqn, ((n + 1) as usize,), next),
    ensures
        n == 0 ==> r == 123456,
        next == (if r <= u32::MAX - 64 {
            r + 64
        } else {
            r + 64 - 0x1_0000_0000
        }),
{
}

/// A frame that passes a hop loses one from its TTL, as long as there is any, and needs a
/// new IP checksum. Nothing else of it changes.
pub proof fn a_hop_costs_one(h: &mut HeaderState)
    requires
        call_ensures(do_ttl, (h,), ()),
    ensures
        old(h).ip.ttl > 0 ==> final(h).ip.ttl + 1 == old(h).ip.ttl,
        old(h).ip.ttl == 0 ==> final(h).ip.ttl == 0,
        final(h).ip.checksum_due,
        final(h).ip.src == old(h).ip.src && final(h).ip.dst == old(h).ip.dst,
        final(h).ip.length == old(h).ip.length,
        final(h).mac == old(h).mac,
        final(h).tcp == old(h).tcp,
{
}

/// The addresses of `b` are those of `a`, with source and destination exchanged.
pub open spec fn opposite(a: HeaderState, b: HeaderState) -> bool {
    &&& b.mac.src == a.mac.dst && b.mac.dst == a.mac.src
    &&& b.ip.src == a.ip.dst && b.ip.dst == a.ip.src
    &&& b.tcp.src_port == a.tcp.dst_port && b.tcp.dst_port == a.tcp.src_port
}

/// A reply takes the opposite way and acknowledges one byte more than the sequence number
/// of what it answers; the rest of the headers stays.
pub proof fn a_reply_acknowledges(h: &mut HeaderState)
    requires
        call_ensures(make_reply_packet, (h,), ()),
    ensures
        opposite(*old(h), *final(h)),
        final(h).mac.etype == old(h).mac.etype,
        final(h).ip.ttl == old(h).ip.ttl && final(h).ip.length == old(h).ip.length,
        final(h).ip.checksum_due == old(h).ip.checksum_due,
        final(h).tcp.ack,
        final(h).tcp.ack_num == old(h).tcp.seq_num.wrapping_add(1),
        final(h).tcp.seq_num == old(h).tcp.seq_num,
        final(h).tcp.data_offset == old(h).tcp.data_offset,
        final(h).tcp.window_size == old(h).tcp.window_size,
        final(h).tcp.syn == old(h).tcp.syn && final(h).tcp.fin == old(h).tcp.fin,
        final(h).tcp.rst == old(h).tcp.rst && final(h).tcp.psh == old(h).tcp.psh,
{
}

/// The frame `b` is on its way from `me`, port `port`, to `server`.
pub open spec fn on_the_way(b: HeaderState, me: L234Data, port: u16, server: L234Data) -> bool {
    &&& b.mac.src == me.mac && b.mac.dst == server.mac
    &&& b.ip.src == me.ip && b.ip.dst == server.ip
    &&& b.tcp.src_port == port && b.tcp.dst_port == server.port
}

/// A frame is addressed to a server from the own address and the given port; the IP
/// checksum is due, the rest of the headers stays.
pub proof fn a_frame_is_addressed(server: L234Data, port: u16, h: &mut HeaderState, me: L234Data)
    requires
        call_ensures(set_header, (&server, port, h, &me), ()),
    ensures
        on_the_way(*final(h), me, port, server),
        final(h).ip.checksum_due,
        final(h).mac.etype == old(h).mac.etype,
        final(h).ip.ttl == old(h).ip.ttl && final(h).ip.length == old(h).ip.length,
        final(h).tcp == (TcpHeader { src_port: port, dst_port: server.port, ..old(h).tcp }),
{
}

/// Redirecting a frame changes where it goes, not where it comes from.
pub proof fn a_frame_is_redirected(h: &mut HeaderState, ip: u32, port: u16, source: SocketAddr)
    requires
        call_ensures(HeaderState::set_server_socket, (h, ip, port), ()),
        call_ensures(HeaderState::source, (&*final(h),), source),
    ensures
        final(h).ip.dst == ip && final(h).tcp.dst_port == port,
        source.ip == old(h).ip.src && source.port == old(h).tcp.src_port,
        final(h).mac == old(h).mac,
        final(h).ip == (IpHeader { dst: ip, ..old(h).ip }),
        final(h).tcp == (TcpHeader { dst_port: port, ..old(h).tcp }),
{
}

/// A TCP header is as long as its words say.
pub proof fn header_length_in_bytes(tcp: TcpHeader, r: u16)
    requires
        call_ensures(TcpHeader::offset, (&tcp,), r),
    ensures
        r % 4 == 0,
        r / 4 == tcp.data_offset,
{
}

/// Asking for a checksum changes no other field.
pub proof fn checksum_is_asked_for(ip: &mut IpHeader)
    requires
        call_ensures(IpHeader::update_checksum, (ip,), ()),
    ensures
        final(ip).checksum_due,
        final(ip).src == old(ip).src && final(ip).dst == old(ip).dst,
        final(ip).ttl == old(ip).ttl && final(ip).length == old(ip).length,
{
}

/// A new frame has its length and no changes.
pub proof fn a_new_frame_is_unchanged(data_len: usize, r: Packet)
    requires
        call_ensures(Packet::new, (data_len,), r),
    ensures
        r.data_len == data_len,
        r.ops@.len() == 0,
        r.payload@.len() == 0,
{
}

/// Cutting shortens a frame and leaves its payload alone.
pub proof fn a_frame_is_cut(p: &mut Packet, n: usize)
    requires
        call_ensures(Packet::trim_payload_size, (p, n), ()),
        n <= old(p).data_len,
    ensures
        final(p).data_len + n == old(p).data_len,
        final(p).payload@ == old(p).payload@,
        final(p).ops@ == old(p).ops@.push(PacketOp::TrimPayload(n)),
{
    frame_is_seen_whole(*final(p));
}

/// A frame grows by what it is made to carry.
pub proof fn a_frame_is_loaded(p: &mut Packet, bytes: Vec<u8>)
    requires
        call_ensures(Packet::append_payload, (p, &bytes), ()),
    ensures
        final(p).data_len == old(p).data_len + bytes@.len(),
        final(p).payload@ == bytes@,
        final(p).ops@ == old(p).ops@.push(
            PacketOp::AddToPayloadTail(bytes@.len() as usize),
        ).push(PacketOp::CopyPayload),
{
    frame_is_seen_whole(*final(p));
}

/// A frame of less than 60 bytes is filled up to 60, a longer one stays as it is.
pub proof fn a_frame_is_filled_up(p: &mut Packet)
    requires
        call_ensures(Packet::pad, (p,), ()),
    ensures
        final(p).payload@ == old(p).payload@,
        old(p).data_len >= 60 ==> same_frame(*old(p), *final(p)),
        old(p).data_len < 60 ==> {
            &&& final(p).data_len == 60
            &&& final(p).ops@ == old(p).ops@.push(
                PacketOp::AddPadding((60 - old(p).data_len) as usize),
            )
        },
{
    frame_is_seen_whole(*final(p));
}

/// The TCP checksum covers the addresses and the length of the datagram; asking for it
/// changes neither payload nor length.
pub proof fn tcp_checksum_is_asked_for(p: &mut Packet, ip: IpHeader)
    requires
        call_ensures(Packet::update_tcp_checksum, (p, &ip), ()),
    ensures
        final(p).data_len == old(p).data_len && final(p).payload@ == old(p).payload@,
        final(p).ops@ == old(p).ops@.push(
            PacketOp::UpdateTcpChecksum { ip_length: ip.length, src: ip.src, dst: ip.dst },
        ),
{
    frame_is_seen_whole(*final(p));
}

/// Without options nothing is removed. Else the header is left with five words, the
/// datagram loses the other words, and the frame loses as much as it can without getting
/// shorter than 60 bytes. No other field changes.
pub proof fn options_go_and_nothing_else(p: &mut Packet, h: &mut HeaderState)
    requires
        call_ensures(remove_tcp_options, (p, h), ()),
        old(h).tcp.data_offset > 5 ==> old(p).data_len >= 60 && old(h).ip.length >= 4 * (old(
            h,
        ).tcp.data_offset - 5),
    ensures
        final(p).payload@ == old(p).payload@,
        final(h).mac == old(h).mac,
        final(h).ip.src == old(h).ip.src && final(h).ip.dst == old(h).ip.dst,
        final(h).ip.ttl == old(h).ip.ttl,
        final(h).tcp == (TcpHeader { data_offset: final(h).tcp.data_offset, ..old(h).tcp }),
        old(h).tcp.data_offset <= 5 ==> final(h).tcp == old(h).tcp && final(h).ip == old(h).ip
            && final(p).data_len == old(p).data_len && final(p).ops@ == old(p).ops@,
        old(h).tcp.data_offset > 5 ==> {
            let options = 4 * (old(h).tcp.data_offset - 5);
            let cut = old(p).data_len - final(p).data_len;
            &&& final(h).tcp.data_offset == 5
            &&& final(h).ip.length + options == old(h).ip.length
            &&& final(h).ip.checksum_due
            &&& 0 <= cut <= options
            &&& final(p).data_len >= 60
            &&& cut == options || final(p).data_len == 60
            &&& final(p).ops@ == old(p).ops@.push(PacketOp::TrimPayload(cut as usize))
        },
{
}

/// Options can be removed exactly from a frame of at least 60 bytes whose datagram holds
/// them; from a frame without options always.
pub proof fn when_options_can_go(p: Packet, h: HeaderState, r: bool)
    requires
        call_ensures(can_remove_tcp_options, (&p, &h), r),
    ensures
        h.tcp.data_offset <= 5 ==> r,
        h.tcp.data_offset > 5 ==> r == (p.data_len >= 60 && h.ip.length >= 4 * (h.tcp.data_offset
            - 5)),
{
}

/// Where options can be removed, they may be.
pub proof fn options_may_go(p: &mut Packet, h: &mut HeaderState)
    requires
        call_ensures(can_remove_tcp_options, (&*old(p), &*old(h)), true),
    ensures
        call_requires(remove_tcp_options, (p, h)),
{
}

/// The octets of an address make up the address, most significant first.
pub proof fn octets_make_up_the_address(ip: u32, r: [u8; 4])
    requires
        call_ensures(octets, (ip,), r),
    ensures
        ip == r@[0] * 0x100_0000 + r@[1] * 0x1_0000 + r@[2] * 0x100 + r@[3],
{
    assert(ip / 0x1_0000 == ip / 0x100 / 0x100);
    assert(ip / 0x100_0000 == ip / 0x1_0000 / 0x100);
}

/// A payload has six bytes, from which the socket can be read back: the address with its
/// most significant byte first, then the port with its least significant byte first.
pub proof fn socket_is_read_back(sock: SocketAddr, r: Vec<u8>)
    requires
        call_ensures(reply_payload, (&sock,), r),
    ensures
        r@.len() == 6,
        sock.ip == r@[0] * 0x100_0000 + r@[1] * 0x1_0000 + r@[2] * 0x100 + r@[3],
        sock.port == r@[4] + r@[5] * 0x100,
{
    assert(sock.ip / 0x1_0000 == sock.ip / 0x100 / 0x100);
    assert(sock.ip / 0x100_0000 == sock.ip / 0x1_0000 / 0x100);
    assert(r@[4] == (sock.port % 0x100) as u8);
    assert(r@[5] == (sock.port / 0x100) as u8);
}

/// A SYN is the first segment of a connection to the server whose turn it is. Of its flags
/// SYN is set, ACK and PSH are not, and FIN and RST are those of the frame that was made
/// into the SYN. It acknowledges nothing, announces a window of 5840 bytes, and the
/// connection goes on with the sequence number after that of the SYN.
pub proof fn a_syn_opens(
    p: &mut Packet,
    c: &mut Connection,
    h: &mut HeaderState,
    me: L234Data,
    servers: Vec<L234Data>,
    stamps: &mut Vec<usize>,
    syn_counter: &mut usize,
    isn: u32,
)
    requires
        call_ensures(generate_syn, (p, c, h, &me, &servers, stamps, syn_counter), ()),
        call_ensures(client_seqn, (*old(syn_counter),), isn),
        servers@.len() > 0,
    ensures
        *final(syn_counter) == *old(syn_counter) + 1,
        final(stamps)@ == (if *old(syn_counter) == 0 {
            old(stamps)@.push(0usize)
        } else {
            old(stamps)@
        }),
        final(c).con_rec.server_index == *old(syn_counter) as int % servers@.len() as int,
        on_the_way(
            *final(h),
            me,
            old(c).port,
            servers@[final(c).con_rec.server_index as int],
        ),
        final(h).mac.etype == 0x0800,
        final(h).ip.ttl == old(h).ip.ttl && final(h).ip.length == old(h).ip.length,
        final(h).ip.checksum_due,
        final(h).tcp.syn && !final(h).tcp.ack && !final(h).tcp.psh,
        final(h).tcp.fin == old(h).tcp.fin && final(h).tcp.rst == old(h).tcp.rst,
        final(h).tcp.seq_num == isn,
        final(h).tcp.ack_num == 0,
        final(h).tcp.window_size == 5840,
        final(h).tcp.data_offset == old(h).tcp.data_offset,
        final(c).c_seqn_nxt == isn.wrapping_add(1),
        final(c).c_ackn_nxt == old(c).c_ackn_nxt && final(c).s_seqn == old(c).s_seqn,
        final(c).port == old(c).port,
        final(c).con_rec.c_state == old(c).con_rec.c_state,
        final(c).con_rec.s_state == old(c).con_rec.s_state,
        final(c).con_rec.ops@ == old(c).con_rec.ops@,
        final(c).dut_mac == old(c).dut_mac && final(c).dut_sock == old(c).dut_sock,
        final(p).data_len == old(p).data_len,
        final(p).payload@ == old(p).payload@,
        final(p).ops@ == old(p).ops@.push(
            PacketOp::UpdateTcpChecksum {
                ip_length: old(h).ip.length,
                src: me.ip,
                dst: final(h).ip.dst,
            },
        ),
{
    let n = *old(syn_counter) as int;
    let len = servers@.len() as int;
    vstd::arithmetic::div_mod::lemma_mod_bound(n, len);
    vstd::arithmetic::div_mod::lemma_mod_decreases(n as nat, len as nat);
    assert(final(c)@.c_seqn_nxt == final(c).c_seqn_nxt);
    assert(final(c)@.ops == final(c).con_rec.ops@);
}

/// A SYN can be made as long as there is a server and the count goes on.
pub proof fn a_syn_may_open(
    p: &mut Packet,
    c: &mut Connection,
    h: &mut HeaderState,
    me: L234Data,
    servers: Vec<L234Data>,
    stamps: &mut Vec<usize>,
    syn_counter: &mut usize,
)
    requires
        servers@.len() > 0,
        *old(syn_counter) < usize::MAX,
    ensures
        call_requires(generate_syn, (p, c, h, &me, &servers, stamps, syn_counter)),
{
}

/// A data segment goes to the server of its connection. Of its flags ACK and PSH are set,
/// SYN is not, and FIN and RST are those of the frame that was made into the segment. It
/// carries the next sequence number of the connection, acknowledges what the connection
/// expects next, and the connection goes on after the payload. The datagram and the frame
/// grow by the payload, and the frame is filled up to 60 bytes.
pub proof fn a_payload_is_sent(
    p: &mut Packet,
    c: &mut Connection,
    h: &mut HeaderState,
    me: L234Data,
    servers: Vec<L234Data>,
    payload: Vec<u8>,
)
    requires
        call_ensures(make_payload_packet, (p, c, h, &me, &servers, &payload), ()),
        old(h).ip.length + payload@.len() <= u16::MAX,
        old(p).data_len + payload@.len() <= usize::MAX,
    ensures
        on_the_way(
            *final(h),
            me,
            old(c).port,
            servers@[old(c).con_rec.server_index as int],
        ),
        final(h).mac.etype == 0x0800,
        final(h).ip.ttl == old(h).ip.ttl,
        final(h).ip.length == old(h).ip.length + payload@.len(),
        final(h).ip.checksum_due,
        final(h).tcp.ack && final(h).tcp.psh && !final(h).tcp.syn,
        final(h).tcp.fin == old(h).tcp.fin && final(h).tcp.rst == old(h).tcp.rst,
        final(h).tcp.seq_num == old(c).c_seqn_nxt,
        final(h).tcp.ack_num == old(c).c_ackn_nxt,
        final(h).tcp.window_size == 5840,
        final(h).tcp.data_offset == old(h).tcp.data_offset,
        final(c).c_seqn_nxt == old(c).c_seqn_nxt.wrapping_add(payload@.len() as u32),
        final(c).c_ackn_nxt == old(c).c_ackn_nxt && final(c).s_seqn == old(c).s_seqn,
        final(c).port == old(c).port,
        final(c).con_rec.server_index == old(c).con_rec.server_index,
        final(c).con_rec.c_state == old(c).con_rec.c_state,
        final(c).con_rec.s_state == old(c).con_rec.s_state,
        final(c).con_rec.ops@ == old(c).con_rec.ops@,
        final(c).dut_mac == old(c).dut_mac && final(c).dut_sock == old(c).dut_sock,
        final(p).payload@ == payload@,
        old(p).data_len + payload@.len() >= 60 ==> final(p).data_len == old(p).data_len
            + payload@.len(),
        old(p).data_len + payload@.len() < 60 ==> final(p).data_len == 60,
        ({
            let missing = final(p).data_len - old(p).data_len - payload@.len();
            let carried = old(p).ops@.push(
                PacketOp::AddToPayloadTail(payload@.len() as usize),
            ).push(PacketOp::CopyPayload);
            let padded = if missing > 0 {
                carried.push(PacketOp::AddPadding(missing as usize))
            } else {
                carried
            };
            final(p).ops@ == padded.push(
                PacketOp::UpdateTcpChecksum {
                    ip_length: final(h).ip.length,
                    src: me.ip,
                    dst: final(h).ip.dst,
                },
            )
        }),
{
    assert(final(p)@.ops == final(p).ops@);
    assert(final(p)@.data_len == final(p).data_len);
    assert(final(c)@.c_seqn_nxt == final(c).c_seqn_nxt);
    assert(final(c)@.ops == final(c).con_rec.ops@);
}

/// A payload can be sent if its connection has a server and the lengths of the frame and of
/// the datagram can be represented.
pub proof fn a_payload_may_be_sent(
    p: &mut Packet,
    c: &mut Connection,
    h: &mut HeaderState,
    me: L234Data,
    servers: Vec<L234Data>,
    payload: Vec<u8>,
)
    requires
        old(c).con_rec.server_index < servers@.len(),
        old(h).ip.length + payload@.len() <= u16::MAX,
        old(p).data_len + payload@.len() <= usize::MAX,
    ensures
        call_requires(make_payload_packet, (p, c, h, &me, &servers, &payload)),
{
}

/// The answer to a SYN-ACK goes back without SYN, with the next sequence number of the
/// connection, and acknowledges the SYN-ACK; the connection expects what was acknowledged.
pub proof fn a_syn_ack_is_acknowledged(p: &mut Packet, c: &mut Connection, h: &mut HeaderState)
    requires
        call_ensures(synack_received, (p, c, h), ()),
    ensures
        opposite(*old(h), *final(h)),
        final(h).tcp.ack && !final(h).tcp.syn,
        final(h).tcp.fin == old(h).tcp.fin && final(h).tcp.rst == old(h).tcp.rst,
        final(h).tcp.psh == old(h).tcp.psh,
        final(h).tcp.seq_num == old(c).c_seqn_nxt,
        final(h).tcp.ack_num == old(h).tcp.seq_num.wrapping_add(1),
        final(h).tcp.window_size == old(h).tcp.window_size,
        final(h).tcp.data_offset == old(h).tcp.data_offset,
        final(h).mac.etype == old(h).mac.etype,
        final(h).ip.ttl == old(h).ip.ttl && final(h).ip.length == old(h).ip.length,
        final(c).c_ackn_nxt == final(h).tcp.ack_num,
        final(c).c_seqn_nxt == old(c).c_seqn_nxt && final(c).s_seqn == old(c).s_seqn,
        final(c).con_rec.ops@ == old(c).con_rec.ops@ && final(c).port == old(c).port,
        final(p).ops@ == old(p).ops@.push(
            PacketOp::UpdateTcpChecksum {
                ip_length: old(h).ip.length,
                src: old(h).ip.dst,
                dst: old(h).ip.src,
            },
        ),
        final(p).data_len == old(p).data_len && final(p).payload@ == old(p).payload@,
        same_identity(*old(c), *final(c)),
        final(c).dut_mac == old(c).dut_mac && final(c).dut_sock == old(c).dut_sock,
{
    assert(final(c)@.c_ackn_nxt == final(c).c_ackn_nxt);
    assert(final(c)@.ops == final(c).con_rec.ops@);
}

/// The answer to a SYN goes back with SYN and ACK and acknowledges the SYN. The connection
/// keeps the sequence number of the answer and where the SYN came from.
pub proof fn a_syn_is_acknowledged(
    p: &mut Packet,
    c: &mut Connection,
    h: &mut HeaderState,
    n: usize,
    isn: u32,
)
    requires
        call_ensures(syn_received, (p, c, h, n), ()),
        call_ensures(server_seqn, (n,), isn),
    ensures
        opposite(*old(h), *final(h)),
        final(h).tcp.ack && final(h).tcp.syn == old(h).tcp.syn,
        final(h).tcp.fin == old(h).tcp.fin && final(h).tcp.rst == old(h).tcp.rst,
        final(h).tcp.psh == old(h).tcp.psh,
        final(h).tcp.seq_num == isn,
        final(h).tcp.ack_num == old(h).tcp.seq_num.wrapping_add(1),
        final(c).s_seqn == isn,
        final(c).dut_mac == Some(old(h).mac),
        final(c).dut_sock == Some(SocketAddr { ip: old(h).ip.src, port: old(h).tcp.src_port }),
        final(c).con_rec.ops@ == old(c).con_rec.ops@.push(
            RecordOp::PushSState(TcpState::SynReceived),
        ),
        final(c).c_seqn_nxt == old(c).c_seqn_nxt && final(c).c_ackn_nxt == old(c).c_ackn_nxt,
        same_identity(*old(c), *final(c)),
        final(h).tcp.window_size == old(h).tcp.window_size,
        final(h).mac.etype == old(h).mac.etype && final(h).ip.ttl == old(h).ip.ttl,
        final(p).payload@ == old(p).payload@,
        final(p).ops@.len() > 0,
        final(p).ops@.last() == (PacketOp::UpdateTcpChecksum {
            ip_length: final(h).ip.length,
            src: old(h).ip.dst,
            dst: old(h).ip.src,
        }),
{
    assert(final(p)@.ops == final(p).ops@);
    assert(final(c)@.s_seqn == final(c).s_seqn);
    assert(final(c)@.ops == final(c).con_rec.ops@);
}

/// The TTL after one hop.
pub open spec fn one_less(before: u8, after: u8) -> bool {
    (before == 0 && after == 0) || after + 1 == before
}

/// The headers `b` are the headers `a` one hop later, and no other field differs.
pub open spec fn passed_on(a: HeaderState, b: HeaderState) -> bool {
    &&& b.mac == a.mac
    &&& b.tcp == a.tcp
    &&& b.ip.src == a.ip.src && b.ip.dst == a.ip.dst && b.ip.length == a.ip.length
    &&& one_less(a.ip.ttl, b.ip.ttl)
    &&& b.ip.checksum_due
}

/// The headers `b` are those of an answer to `a`, one hop later: they take the opposite way,
/// acknowledge `a`, and have the flags FIN, RST and PSH of `a`.
pub open spec fn answered(a: HeaderState, b: HeaderState) -> bool {
    &&& opposite(a, b)
    &&& b.mac.etype == a.mac.etype
    &&& one_less(a.ip.ttl, b.ip.ttl)
    &&& b.ip.checksum_due
    &&& b.tcp.ack
    &&& b.tcp.ack_num == a.tcp.seq_num.wrapping_add(1)
    &&& b.tcp.window_size == a.tcp.window_size
    &&& b.tcp.fin == a.tcp.fin && b.tcp.rst == a.tcp.rst && b.tcp.psh == a.tcp.psh
}

/// The frames do not differ.
pub open spec fn same_frame(a: Packet, b: Packet) -> bool {
    a.data_len == b.data_len && a.payload@ == b.payload@ && a.ops@ == b.ops@
}

/// The frame `b` is the frame `a` with a new TCP checksum for the headers `h`.
pub open spec fn new_checksum(a: Packet, b: Packet, h: HeaderState) -> bool {
    &&& a.data_len == b.data_len && a.payload@ == b.payload@
    &&& b.ops@ == a.ops@.push(
        PacketOp::UpdateTcpChecksum { ip_length: h.ip.length, src: h.ip.src, dst: h.ip.dst },
    )
}

/// The connection `b` is the connection `a` with the entries `new` at the end of its record.
pub open spec fn noted(a: Connection, b: Option<Connection>, new: Seq<RecordOp>) -> bool {
    &&& b is Some
    &&& same_identity(a, b->0)
    &&& b->0.con_rec.ops@ =~= a.con_rec.ops@ + new
    &&& b->0.c_seqn_nxt == a.c_seqn_nxt
    &&& b->0.c_ackn_nxt == a.c_ackn_nxt
    &&& b->0.s_seqn == a.s_seqn
    &&& b->0.dut_mac == a.dut_mac && b->0.dut_sock == a.dut_sock
}

/// The connections agree on port, server and the states that came in.
pub open spec fn same_identity(a: Connection, b: Connection) -> bool {
    &&& a.port == b.port
    &&& a.con_rec.server_index == b.con_rec.server_index
    &&& a.con_rec.c_state == b.con_rec.c_state
    &&& a.con_rec.s_state == b.con_rec.s_state
}

/// Beyond verdict and connection, nothing is to be done.
pub open spec fn nothing_else(o: Outcome) -> bool {
    &&& o.stamps@.len() == 0
    &&& o.schedule is None
    &&& !o.stop_injector
    &&& o.report is None
    &&& !o.release_timeouts
}

} // verus!
