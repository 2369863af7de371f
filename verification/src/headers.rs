//! The header fields of a frame that the generator reads and rewrites.

use crate::seqnum;
use vstd::prelude::*;

verus! {

/// EtherType of IPv4.
pub const ETYPE_IPV4: u16 = 0x0800;

/// A MAC address, its six octets in transmission order.
#[derive(Clone, Copy, Debug, PartialEq, Eq, Structural)]
pub struct MacAddress(pub u8, pub u8, pub u8, pub u8, pub u8, pub u8);

/// Ethernet header.
#[derive(Clone, Copy, Debug, PartialEq, Eq, Structural)]
pub struct MacHeader {
    pub src: MacAddress,
    pub dst: MacAddress,
    pub etype: u16,
}

/// IPv4 header. Addresses and lengths are in host byte order.
#[derive(Clone, Copy, Debug, PartialEq, Eq, Structural)]
pub struct IpHeader {
    pub src: u32,
    pub dst: u32,
    pub ttl: u8,
    /// Total length of the datagram in bytes.
    pub length: u16,
    /// The header checksum has to be computed anew before the frame is sent.
    pub checksum_due: bool,
}

/// TCP header. Ports and numbers are in host byte order.
#[derive(Clone, Copy, Debug, PartialEq, Eq, Structural)]
pub struct TcpHeader {
    pub src_port: u16,
    pub dst_port: u16,
    pub seq_num: u32,
    pub ack_num: u32,
    /// Length of the header in words of four bytes.
    pub data_offset: u8,
    pub window_size: u16,
    pub syn: bool,
    pub ack: bool,
    pub fin: bool,
    pub rst: bool,
    pub psh: bool,
}

/// An IPv4 address and a TCP port.
#[derive(Clone, Copy, Debug, PartialEq, Eq, Structural)]
pub struct SocketAddr {
    pub ip: u32,
    pub port: u16,
}

/// Layer 2, 3 and 4 address of a host.
#[derive(Clone, Copy, Debug, PartialEq, Eq, Structural)]
pub struct L234Data {
    pub mac: MacAddress,
    pub ip: u32,
    pub port: u16,
}

/// The three headers of a TCP frame.
#[derive(Clone, Copy, Debug, PartialEq, Eq, Structural)]
pub struct HeaderState {
    pub mac: MacHeader,
    pub ip: IpHeader,
    pub tcp: TcpHeader,
}

impl IpHeader {
    /// Asks for a new header checksum.
    pub fn update_checksum(&mut self)
        ensures
            *final(self) == (IpHeader { checksum_due: true, ..*old(self) }),
    {
        self.checksum_due = true;
    }
}

impl TcpHeader {
    /// Length of the header in bytes.
    pub open spec fn spec_offset(self) -> int {
        self.data_offset * 4
    }

    /// Computes the length of the header in bytes.
    pub fn offset(&self) -> (r: u16)
        ensures
            r == self.spec_offset(),
    {
        self.data_offset as u16 * 4
    }
}

impl HeaderState {
    /// The headers with which a frame travels to `to`.
    pub open spec fn addressed_to(self, to: SocketAddr) -> HeaderState {
        HeaderState {
            ip: IpHeader { dst: to.ip, ..self.ip },
            tcp: TcpHeader { dst_port: to.port, ..self.tcp },
            ..self
        }
    }

    /// The headers of a frame that `me` sends from `port` to `server`.
    pub open spec fn sent_to(self, server: L234Data, port: u16, me: L234Data) -> HeaderState {
        HeaderState {
            mac: MacHeader { dst: server.mac, src: me.mac, ..self.mac },
            ip: IpHeader { src: me.ip, dst: server.ip, checksum_due: true, ..self.ip },
            tcp: TcpHeader { src_port: port, dst_port: server.port, ..self.tcp },
        }
    }

    /// The headers of the answer to a frame: all addresses swapped, and the byte
    /// after the frame's sequence number acknowledged.
    pub open spec fn reply(self) -> HeaderState {
        HeaderState {
            mac: MacHeader { src: self.mac.dst, dst: self.mac.src, ..self.mac },
            ip: IpHeader { src: self.ip.dst, dst: self.ip.src, ..self.ip },
            tcp: TcpHeader {
                src_port: self.tcp.dst_port,
                dst_port: self.tcp.src_port,
                ack: true,
                ack_num: seqnum::seqn_after(self.tcp.seq_num, 1),
                ..self.tcp
            },
        }
    }

    /// The headers of a frame that passed one hop.
    pub open spec fn one_hop_on(self) -> HeaderState {
        HeaderState {
            ip: IpHeader {
                ttl: if self.ip.ttl == 0 {
                    0
                } else {
                    (self.ip.ttl - 1) as u8
                },
                checksum_due: true,
                ..self.ip
            },
            ..self
        }
    }

    /// The socket that the frame comes from.
    pub open spec fn spec_source(self) -> SocketAddr {
        SocketAddr { ip: self.ip.src, port: self.tcp.src_port }
    }

    /// Reads the socket that the frame comes from.
    pub fn source(&self) -> (r: SocketAddr)
        ensures
            r == self.spec_source(),
    {
        SocketAddr { ip: self.ip.src, port: self.tcp.src_port }
    }

    /// Redirects the frame to a socket.
    pub fn set_server_socket(&mut self, ip: u32, port: u16)
        ensures
            *final(self) == old(self).addressed_to(SocketAddr { ip, port }),
    {
        self.ip.dst = ip;
        self.tcp.dst_port = port;
    }
}

/// Counts the hop: lowers the TTL unless it is already zero.
pub fn do_ttl(h: &mut HeaderState)
    ensures
        *final(h) == old(h).one_hop_on(),
{
    let ttl: u8 = h.ip.ttl;
    if ttl >= 1 {
        h.ip.ttl = ttl - 1;
    }
    h.ip.update_checksum();
}

/// Turns a received frame into the answer to it.
pub fn make_reply_packet(h: &mut HeaderState)
    ensures
        *final(h) == old(h).reply(),
{
    let smac = h.mac.src;
    let dmac = h.mac.dst;
    let sip: u32 = h.ip.src;
    let dip: u32 = h.ip.dst;
    let sport: u16 = h.tcp.src_port;
    let dport: u16 = h.tcp.dst_port;
    h.mac.src = dmac;
    h.mac.dst = smac;
    h.ip.dst = sip;
    h.ip.src = dip;
    h.tcp.src_port = dport;
    h.tcp.dst_port = sport;
    h.tcp.ack = true;
    h.tcp.ack_num = seqnum::advance(h.tcp.seq_num, 1);
}

/// Addresses the frame from `me`, port `port`, to `server`.
pub fn set_header(server: &L234Data, port: u16, h: &mut HeaderState, me: &L234Data)
    ensures
        *final(h) == old(h).sent_to(*server, port, *me),
{
    h.mac.dst = server.mac;
    h.mac.src = me.mac;
    h.set_server_socket(server.ip, server.port);
    h.ip.src = me.ip;
    h.tcp.src_port = port;
    h.ip.update_checksum();
}

} // verus!
