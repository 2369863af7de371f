//! The frame around the headers: its length, and what is to be done to its bytes.

use crate::headers::{HeaderState, IpHeader};
use vstd::prelude::*;

verus! {

/// Length of the shortest Ethernet frame, without its check sequence.
pub const MIN_FRAME_SIZE: usize = 60;

/// Length in bytes of a TCP header without options.
pub const TCP_HEADER_SIZE: u16 = 20;

/// A change to the bytes of a frame, made after the headers were written back.
#[derive(Clone, Copy, Debug, PartialEq, Eq, Structural)]
pub enum PacketOp {
    /// Cut so many bytes off the end.
    TrimPayload(usize),
    /// Make room for so many bytes at the end of the payload.
    AddToPayloadTail(usize),
    /// Copy [`Packet::payload`] over the payload.
    CopyPayload,
    /// Append so many zero bytes.
    AddPadding(usize),
    /// Compute the TCP checksum, with a pseudo header for a datagram of the given
    /// total length between the given addresses.
    UpdateTcpChecksum { ip_length: u16, src: u32, dst: u32 },
}

/// A frame.
#[derive(Debug)]
pub struct Packet {
    /// Number of bytes in the frame.
    pub data_len: usize,
    /// The bytes for [`PacketOp::CopyPayload`].
    pub payload: Vec<u8>,
    /// The changes to the frame, in the order in which they are made.
    pub ops: Vec<PacketOp>,
}

/// The contents of a [`Packet`].
#[verifier::ext_equal]
pub struct PacketView {
    pub data_len: int,
    pub payload: Seq<u8>,
    pub ops: Seq<PacketOp>,
}

impl View for Packet {
    type V = PacketView;

    open spec fn view(&self) -> PacketView {
        PacketView { data_len: self.data_len as int, payload: self.payload@, ops: self.ops@ }
    }
}

impl PacketView {
    /// The frame, `n` bytes shorter.
    pub open spec fn trimmed(self, n: int) -> PacketView {
        PacketView {
            data_len: self.data_len - n,
            ops: self.ops.push(PacketOp::TrimPayload(n as usize)),
            ..self
        }
    }

    /// The frame with `bytes` as its payload, which `bytes` makes longer.
    pub open spec fn carrying(self, bytes: Seq<u8>) -> PacketView {
        PacketView {
            data_len: self.data_len + bytes.len(),
            payload: bytes,
            ops: self.ops.push(PacketOp::AddToPayloadTail(bytes.len() as usize)).push(
                PacketOp::CopyPayload,
            ),
        }
    }

    /// The frame, filled up with zero bytes to [`MIN_FRAME_SIZE`] if it is shorter.
    pub open spec fn padded(self) -> PacketView {
        if self.data_len < MIN_FRAME_SIZE {
            PacketView {
                data_len: MIN_FRAME_SIZE as int,
                ops: self.ops.push(
                    PacketOp::AddPadding((MIN_FRAME_SIZE - self.data_len) as usize),
                ),
                ..self
            }
        } else {
            self
        }
    }

    /// The frame with a new TCP checksum for the datagram that `ip` heads.
    pub open spec fn checksummed(self, ip: IpHeader) -> PacketView {
        PacketView {
            ops: self.ops.push(
                PacketOp::UpdateTcpChecksum { ip_length: ip.length, src: ip.src, dst: ip.dst },
            ),
            ..self
        }
    }
}

impl Packet {
    /// A frame of `data_len` bytes that nothing was done to yet.
    pub fn new(data_len: usize) -> (r: Packet)
        ensures
            r@ == (PacketView { data_len: data_len as int, payload: seq![], ops: seq![] }),
    {
        Packet { data_len, payload: Vec::new(), ops: Vec::new() }
    }

    /// Cuts `n` bytes off the end.
    pub fn trim_payload_size(&mut self, n: usize)
        requires
            n <= old(self).data_len,
        ensures
            final(self)@ == old(self)@.trimmed(n as int),
    {
        self.data_len = self.data_len - n;
        self.ops.push(PacketOp::TrimPayload(n));
    }

    /// Makes `bytes` the payload.
    pub fn append_payload(&mut self, bytes: &Vec<u8>)
        requires
            old(self).data_len + bytes.len() <= usize::MAX,
        ensures
            final(self)@ == old(self)@.carrying(bytes@),
    {
        let sz: usize = bytes.len();
        self.data_len = self.data_len + sz;
        self.payload = bytes.clone();
        self.ops.push(PacketOp::AddToPayloadTail(sz));
        self.ops.push(PacketOp::CopyPayload);
    }

    /// Fills a short frame up to [`MIN_FRAME_SIZE`].
    pub fn pad(&mut self)
        ensures
            final(self)@ == old(self)@.padded(),
    {
        if self.data_len < MIN_FRAME_SIZE {
            let n_padding_bytes: usize = MIN_FRAME_SIZE - self.data_len;
            self.data_len = MIN_FRAME_SIZE;
            self.ops.push(PacketOp::AddPadding(n_padding_bytes));
        }
    }

    /// Asks for a new TCP checksum.
    pub fn update_tcp_checksum(&mut self, ip: &IpHeader)
        ensures
            final(self)@ == old(self)@.checksummed(*ip),
    {
        self.ops.push(
            PacketOp::UpdateTcpChecksum { ip_length: ip.length, src: ip.src, dst: ip.dst },
        );
    }
}

/// TCP options follow the fixed part of the header.
pub open spec fn has_options(h: HeaderState) -> bool {
    h.tcp.spec_offset() > TCP_HEADER_SIZE
}

/// The options, if any, can be cut off a frame of `data_len` bytes: the frame is no
/// shorter than the shortest one, and the datagram holds the options.
pub open spec fn options_removable(data_len: int, h: HeaderState) -> bool {
    has_options(h) ==> {
        &&& data_len >= MIN_FRAME_SIZE
        &&& h.ip.length >= h.tcp.spec_offset() - TCP_HEADER_SIZE
    }
}

/// The headers without TCP options.
pub open spec fn headers_without_options(h: HeaderState) -> HeaderState {
    if has_options(h) {
        HeaderState {
            ip: crate::headers::IpHeader {
                length: (h.ip.length - (h.tcp.spec_offset() - TCP_HEADER_SIZE)) as u16,
                checksum_due: true,
                ..h.ip
            },
            tcp: crate::headers::TcpHeader { data_offset: 5, ..h.tcp },
            ..h
        }
    } else {
        h
    }
}

/// The frame without TCP options, but not shorter than [`MIN_FRAME_SIZE`].
pub open spec fn frame_without_options(p: PacketView, h: HeaderState) -> PacketView {
    if has_options(h) {
        let options = h.tcp.spec_offset() - TCP_HEADER_SIZE;
        let spare = p.data_len - MIN_FRAME_SIZE;
        p.trimmed(
            if spare < options {
                spare
            } else {
                options
            },
        )
    } else {
        p
    }
}

/// Tests whether the options, if any, can be cut off the frame.
pub fn can_remove_tcp_options(p: &Packet, h: &HeaderState) -> (r: bool)
    ensures
        r == options_removable(p.data_len as int, *h),
{
    let offset: u16 = h.tcp.offset();
    offset <= TCP_HEADER_SIZE || (p.data_len >= MIN_FRAME_SIZE && h.ip.length >= offset
        - TCP_HEADER_SIZE)
}

/// Removes the TCP options of a SYN or SYN-ACK. A payload behind the options would
/// not be shifted up: there must be none.
pub fn remove_tcp_options(p: &mut Packet, h: &mut HeaderState)
    requires
        options_removable(old(p).data_len as int, *old(h)),
    ensures
        *final(h) == headers_without_options(*old(h)),
        final(p)@ == frame_without_options(old(p)@, *old(h)),
{
    let old_offset: u16 = h.tcp.offset();
    if old_offset > TCP_HEADER_SIZE {
        let options: u16 = old_offset - TCP_HEADER_SIZE;
        h.tcp.data_offset = 5;
        h.ip.length = h.ip.length - options;
        let spare: usize = p.data_len - MIN_FRAME_SIZE;
        let trim_by: usize = if spare < options as usize {
            spare
        } else {
            options as usize
        };
        p.trim_payload_size(trim_by);
        h.ip.update_checksum();
    }
}

} // verus!
