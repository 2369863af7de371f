//! Which frames from the network a pipeline keeps, and which of them are its TCP
//! traffic.

use crate::headers::{MacAddress, ETYPE_IPV4};
use vstd::prelude::*;

verus! {

/// IP protocol number of TCP.
pub const PROTO_TCP: u8 = 6;

/// Group of the frames that are handed to the kernel.
pub const L2_KNI: usize = 0;

/// Group of the TCP frames that the pipeline handles itself.
pub const L2_TCP: usize = 1;

/// The fields of an IPv4 datagram by which it is steered.
#[derive(Clone, Copy, Debug, PartialEq, Eq, Structural)]
pub struct IpFlow {
    pub dst_ip: u32,
    pub dst_port: u16,
    pub proto: u8,
}

/// The addresses that a pipeline answers to.
#[derive(Clone, Copy, Debug, PartialEq, Eq, Structural)]
pub struct Steering {
    pub mac: MacAddress,
    /// Address of the engine.
    pub ip: u32,
    /// Port of the engine.
    pub port: u16,
    /// Address assigned to the pipeline.
    pub pipeline_ip: u32,
    /// Lowest port of the connections that the pipeline opens.
    pub tcp_min_port: u16,
}

impl Steering {
    /// The datagram is TCP traffic of this pipeline.
    pub open spec fn owns(self, flow: IpFlow) -> bool {
        &&& flow.proto == PROTO_TCP
        &&& flow.dst_ip == self.ip || flow.dst_ip == self.pipeline_ip
        &&& flow.dst_port == self.port || flow.dst_port >= self.tcp_min_port
    }

    /// Decides whether a frame to `dst` is kept; the caller knows whether `dst` is a
    /// multicast or the broadcast address.
    pub fn accepts_mac(&self, dst: &MacAddress, is_multicast: bool, is_broadcast: bool) -> (r: bool)
        ensures
            r == (*dst == self.mac || is_multicast || is_broadcast),
    {
        if *dst == self.mac {
            true
        } else if is_multicast || is_broadcast {
            true
        } else {
            false
        }
    }

    /// Chooses the group of a frame with the given EtherType; of an IPv4 frame, `flow`
    /// holds the fields by which it is steered.
    pub fn l2_group(&self, etype: u16, flow: Option<IpFlow>) -> (r: usize)
        requires
            etype == ETYPE_IPV4 ==> flow is Some,
        ensures
            r == if etype == ETYPE_IPV4 && self.owns(flow->0) {
                L2_TCP
            } else {
                L2_KNI
            },
    {
        if etype != ETYPE_IPV4 {
            return L2_KNI;
        }
        match flow {
            Some(flow) => {
                if (flow.dst_ip == self.ip || flow.dst_ip == self.pipeline_ip) && flow.proto
                    == PROTO_TCP {
                    if flow.dst_port == self.port || flow.dst_port >= self.tcp_min_port {
                        L2_TCP
                    } else {
                        L2_KNI
                    }
                } else {
                    L2_KNI
                }
            },
            None => L2_KNI,
        }
    }
}

} // verus!
