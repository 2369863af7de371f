//! The payload of a data segment: the socket on which the generator expects an answer.

use crate::headers::SocketAddr;
use vstd::prelude::*;

verus! {

/// The error type of `bincode`.
#[verifier::external_type_specification]
#[verifier::external_body]
pub struct ExErrorKind(bincode::ErrorKind);

/// The octets of an IPv4 address, most significant first.
pub open spec fn ip_octets(ip: u32) -> Seq<u8> {
    seq![
        (ip / 0x100_0000) as u8,
        (ip / 0x1_0000 % 0x100) as u8,
        (ip / 0x100 % 0x100) as u8,
        (ip % 0x100) as u8,
    ]
}

/// The two bytes of a port, least significant first.
pub open spec fn port_bytes(port: u16) -> Seq<u8> {
    seq![(port % 0x100) as u8, (port / 0x100) as u8]
}

/// The bytes that stand for a socket on the wire: the octets of the address, then the
/// port.
pub open spec fn socket_bytes(sock: SocketAddr) -> Seq<u8> {
    ip_octets(sock.ip) + port_bytes(sock.port)
}

/// Calls `bincode::serialize` on four octets and a port, which is how serde presents an
/// IPv4 socket address to a binary format. The call is taken to succeed and to give the
/// octets in order followed by the port in little-endian order, without a length or any
/// other prefix.
#[verifier::external_body]
fn serialize(value: &([u8; 4], u16)) -> (r: Result<Vec<u8>, Box<bincode::ErrorKind>>)
    ensures
        r is Ok,
        r->Ok_0@ == value.0@ + port_bytes(value.1),
{
    bincode::serialize(value)
}

/// Splits an IPv4 address into its octets.
pub fn octets(ip: u32) -> (r: [u8; 4])
    ensures
        r@ == ip_octets(ip),
{
    proof {
        assert((ip >> 24) == ip / 0x100_0000 && (ip >> 24) < 0x100) by (bit_vector);
        assert(((ip >> 16) & 0xff) == ip / 0x1_0000 % 0x100) by (bit_vector);
        assert(((ip >> 8) & 0xff) == ip / 0x100 % 0x100) by (bit_vector);
        assert((ip & 0xff) == ip % 0x100) by (bit_vector);
    }
    let r: [u8; 4] = [
        (ip >> 24) as u8,
        ((ip >> 16) & 0xff) as u8,
        ((ip >> 8) & 0xff) as u8,
        (ip & 0xff) as u8,
    ];
    assert(r@ =~= ip_octets(ip));
    r
}

/// Builds the payload that tells the server where to answer.
pub fn reply_payload(sock: &SocketAddr) -> (r: Vec<u8>)
    ensures
        r@ == socket_bytes(*sock),
{
    let value = (octets(sock.ip), sock.port);
    match serialize(&value) {
        Ok(bytes) => bytes,
        Err(_) => vstd::pervasive::unreached(),
    }
}

} // verus!
