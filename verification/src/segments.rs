//! The segments that the generator sends, and how they change a connection.

use crate::connection::{Connection, ConnectionView, RecordOp, TcpState};
use crate::headers::{
    make_reply_packet, set_header, HeaderState, IpHeader, L234Data, MacHeader, TcpHeader,
    ETYPE_IPV4,
};
use crate::packet::{self, remove_tcp_options, Packet, PacketView};
use crate::seqnum;
use vstd::prelude::*;

verus! {

/// Receive window that the generator announces: four segments of 1460 bytes.
pub const WINDOW_SIZE: u16 = 5840;

/// The headers of the SYN-ACK that answers the `n`-th received SYN.
pub open spec fn syn_ack_headers(h: HeaderState, n: nat) -> HeaderState {
    let r = packet::headers_without_options(h).reply();
    HeaderState { tcp: TcpHeader { seq_num: seqnum::server_isn(n), ..r.tcp }, ..r }
}

/// The frame of the SYN-ACK that answers the `n`-th received SYN.
pub open spec fn syn_ack_frame(p: PacketView, h: HeaderState, n: nat) -> PacketView {
    packet::frame_without_options(p, h).checksummed(syn_ack_headers(h, n).ip)
}

/// The connection that the `n`-th received SYN opens.
pub open spec fn syn_received_by(c: ConnectionView, h: HeaderState, n: nat) -> ConnectionView {
    ConnectionView {
        dut_mac: Some(h.mac),
        dut_sock: Some(h.spec_source()),
        s_seqn: seqnum::server_isn(n),
        ..c.noted(RecordOp::PushSState(TcpState::SynReceived))
    }
}

/// Answers a SYN with a SYN-ACK; `syn_counter` counts the SYNs received so far, this
/// one included.
pub fn syn_received(p: &mut Packet, c: &mut Connection, h: &mut HeaderState, syn_counter: usize)
    requires
        packet::options_removable(old(p).data_len as int, *old(h)),
    ensures
        *final(h) == syn_ack_headers(*old(h), syn_counter as nat),
        final(p)@ == syn_ack_frame(old(p)@, *old(h), syn_counter as nat),
        final(c)@ == syn_received_by(old(c)@, *old(h), syn_counter as nat),
{
    c.push_s_state(TcpState::SynReceived);
    c.dut_mac = Some(h.mac);
    c.dut_sock = Some(h.source());
    remove_tcp_options(p, h);
    make_reply_packet(h);
    c.s_seqn = seqnum::server_seqn(syn_counter);
    h.tcp.seq_num = c.s_seqn;
    p.update_tcp_checksum(&h.ip);
}

/// The headers of the ACK that answers a SYN-ACK.
pub open spec fn ack_headers(h: HeaderState, c: ConnectionView) -> HeaderState {
    let r = h.reply();
    HeaderState { tcp: TcpHeader { syn: false, seq_num: c.c_seqn_nxt, ..r.tcp }, ..r }
}

/// The connection whose client side received and acknowledged `h`.
pub open spec fn acknowledged(c: ConnectionView, h: HeaderState) -> ConnectionView {
    ConnectionView { c_ackn_nxt: h.reply().tcp.ack_num, ..c }
}

/// Answers a SYN-ACK with an ACK.
pub fn synack_received(p: &mut Packet, c: &mut Connection, h: &mut HeaderState)
    ensures
        *final(h) == ack_headers(*old(h), old(c)@),
        final(p)@ == old(p)@.checksummed(old(h).reply().ip),
        final(c)@ == acknowledged(old(c)@, *old(h)),
{
    make_reply_packet(h);
    c.c_ackn_nxt = h.tcp.ack_num;
    h.tcp.syn = false;
    h.tcp.seq_num = c.c_seqn_nxt;
    p.update_tcp_checksum(&h.ip);
}

/// The headers of an IPv4 frame that `me` sends from `port` to `server`.
pub open spec fn outgoing_headers(
    h: HeaderState,
    server: L234Data,
    port: u16,
    me: L234Data,
) -> HeaderState {
    HeaderState { mac: MacHeader { etype: ETYPE_IPV4, ..h.mac }, ..h }.sent_to(server, port, me)
}

/// The headers of the SYN that opens the `n`-th connection.
pub open spec fn syn_headers(
    h: HeaderState,
    server: L234Data,
    port: u16,
    me: L234Data,
    n: nat,
) -> HeaderState {
    let out = outgoing_headers(h, server, port, me);
    HeaderState {
        tcp: TcpHeader {
            seq_num: seqnum::client_isn(n),
            ack_num: 0,
            window_size: WINDOW_SIZE,
            syn: true,
            ack: false,
            psh: false,
            ..out.tcp
        },
        ..out
    }
}

/// The connection that the `n`-th SYN opens towards one of `n_servers` servers.
pub open spec fn opened(c: ConnectionView, n: nat, n_servers: nat) -> ConnectionView {
    ConnectionView {
        server_index: (n % n_servers) as usize,
        c_seqn_nxt: seqnum::seqn_after(seqnum::client_isn(n), 1),
        ..c
    }
}

/// Makes the frame the SYN that opens the connection `c`; `syn_counter` counts the SYNs
/// sent so far and chooses the server. The first SYN is noted in `stamps`.
pub fn generate_syn(
    p: &mut Packet,
    c: &mut Connection,
    h: &mut HeaderState,
    me: &L234Data,
    servers: &Vec<L234Data>,
    stamps: &mut Vec<usize>,
    syn_counter: &mut usize,
)
    requires
        servers.len() > 0,
        *old(syn_counter) < usize::MAX,
    ensures
        *final(syn_counter) == *old(syn_counter) + 1,
        *final(h) == syn_headers(
            *old(h),
            servers@[*old(syn_counter) as int % servers.len() as int],
            old(c).port,
            *me,
            *old(syn_counter) as nat,
        ),
        final(p)@ == old(p)@.checksummed(final(h).ip),
        final(c)@ == opened(old(c)@, *old(syn_counter) as nat, servers@.len()),
        final(stamps)@ == if *old(syn_counter) == 0 {
            old(stamps)@.push(0)
        } else {
            old(stamps)@
        },
{
    h.mac.etype = ETYPE_IPV4;
    c.con_rec.server_index = *syn_counter % servers.len();
    set_header(&servers[c.con_rec.server_index], c.port, h, me);
    if *syn_counter == 0 {
        stamps.push(*syn_counter);
    }
    let isn: u32 = seqnum::client_seqn(*syn_counter);
    h.tcp.seq_num = isn;
    c.c_seqn_nxt = seqnum::advance(isn, 1);
    h.tcp.syn = true;
    h.tcp.window_size = WINDOW_SIZE;
    h.tcp.ack_num = 0;
    h.tcp.ack = false;
    h.tcp.psh = false;
    p.update_tcp_checksum(&h.ip);
    *syn_counter += 1;
}

/// The headers of the segment that carries `sz` bytes of payload on the connection `c`.
pub open spec fn payload_headers(
    h: HeaderState,
    server: L234Data,
    c: ConnectionView,
    me: L234Data,
    sz: nat,
) -> HeaderState {
    let out = outgoing_headers(h, server, c.port, me);
    HeaderState {
        ip: IpHeader { length: (h.ip.length + sz % 0x1_0000) as u16, ..out.ip },
        tcp: TcpHeader {
            seq_num: c.c_seqn_nxt,
            ack_num: c.c_ackn_nxt,
            window_size: WINDOW_SIZE,
            syn: false,
            ack: true,
            psh: true,
            ..out.tcp
        },
        ..out
    }
}

/// The connection after `sz` bytes of payload were sent on it.
pub open spec fn payload_sent(c: ConnectionView, sz: nat) -> ConnectionView {
    ConnectionView { c_seqn_nxt: seqnum::seqn_after(c.c_seqn_nxt, sz as int), ..c }
}

/// Makes the frame a segment that carries `payload` on the connection `c`.
pub fn make_payload_packet(
    p: &mut Packet,
    c: &mut Connection,
    h: &mut HeaderState,
    me: &L234Data,
    servers: &Vec<L234Data>,
    payload: &Vec<u8>,
)
    requires
        old(c).con_rec.server_index < servers.len(),
        old(p).data_len + payload.len() <= usize::MAX,
        old(h).ip.length + payload.len() as int % 0x1_0000 <= u16::MAX,
    ensures
        *final(h) == payload_headers(
            *old(h),
            servers@[old(c).con_rec.server_index as int],
            old(c)@,
            *me,
            payload@.len(),
        ),
        final(p)@ == old(p)@.carrying(payload@).padded().checksummed(final(h).ip),
        final(c)@ == payload_sent(old(c)@, payload@.len()),
{
    h.mac.etype = ETYPE_IPV4;
    set_header(&servers[c.con_rec.server_index], c.port, h, me);
    let sz: usize = payload.len();
    let ip_sz: u16 = h.ip.length;
    p.append_payload(payload);
    proof {
        assert((sz as u16) as int == sz as int % 0x1_0000) by (bit_vector);
        assert((sz as u32) as int == sz as int % 0x1_0000_0000) by (bit_vector);
        vstd::arithmetic::div_mod::lemma_add_mod_noop_right(
            c.c_seqn_nxt as int,
            sz as int,
            0x1_0000_0000,
        );
    }
    h.ip.length = ip_sz + #[verifier::truncate] (sz as u16);
    h.ip.update_checksum();
    h.tcp.seq_num = c.c_seqn_nxt;
    h.tcp.syn = false;
    h.tcp.window_size = WINDOW_SIZE;
    h.tcp.ack_num = c.c_ackn_nxt;
    h.tcp.ack = true;
    h.tcp.psh = true;
    c.c_seqn_nxt = seqnum::advance(c.c_seqn_nxt, #[verifier::truncate] (sz as u32));
    p.pad();
    p.update_tcp_checksum(&h.ip);
}

} // verus!
