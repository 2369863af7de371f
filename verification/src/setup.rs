//! How a pipeline is set up.

use crate::counter::TcpControls;
use crate::engine::{Config, Engine};
use crate::headers::L234Data;
use crate::steering::Steering;
use crate::timer::wheel_tick_reduction_factor;
use vstd::prelude::*;

verus! {

/// Identifies a pipeline.
#[derive(Clone, Copy, Debug, PartialEq, Eq, Structural)]
pub struct PipelineId {
    pub core: u16,
    pub port_id: u16,
    pub rxq: u16,
}

/// What a pipeline is set up from.
#[derive(Debug)]
pub struct Setup {
    /// Number of connections to open.
    pub nr_connections: usize,
    /// Address of the engine, as configured.
    pub me: L234Data,
    /// Address by which the network steers traffic to the receive queue.
    pub flow_ip: u32,
    /// Address assigned to the pipeline by the owner of its connections.
    pub pipeline_ip: u32,
    /// Lowest port of the connections that the pipeline opens.
    pub tcp_min_port: u16,
    pub servers: Vec<L234Data>,
    /// EtherType of the frames that the generator makes into segments.
    pub etype_packet: u16,
    /// EtherType of the timer ticks.
    pub etype_timer: u16,
    /// Milliseconds after which an open connection times out.
    pub established: Option<u64>,
    /// Clock cycles in a millisecond.
    pub millis_to_cycles: u64,
    /// Clock cycles in one slot of the timer wheel.
    pub wheel_resolution: u64,
    /// Clock cycles between two timer ticks.
    pub tick_length: u64,
}

/// A pipeline, ready to handle frames.
#[derive(Debug)]
pub struct Pipeline {
    pub steering: Steering,
    pub engine: Engine,
}

impl Setup {
    /// The address from which connections are opened: that of the engine, but with the
    /// IP address by which traffic is steered to the pipeline.
    pub open spec fn own_address(self) -> L234Data {
        L234Data { ip: self.flow_ip, ..self.me }
    }
}

impl PipelineId {
    /// Identifies the pipeline that runs on a CPU core and serves a receive queue of a
    /// network port. Of the core and the port the lower 16 bits are kept.
    pub fn new(core: i32, port_id: i32, rxq: u16) -> (r: PipelineId)
        ensures
            r.core == core as int % 0x1_0000,
            r.port_id == port_id as int % 0x1_0000,
            r.rxq == rxq,
    {
        proof {
            assert((core as u16) as int == core as int % 0x1_0000) by (bit_vector);
            assert((port_id as u16) as int == port_id as int % 0x1_0000) by (bit_vector);
        }
        PipelineId {
            core: #[verifier::truncate] (core as u16),
            port_id: #[verifier::truncate] (port_id as u16),
            rxq,
        }
    }
}

/// Sets up a pipeline that handled no frame yet. A slot of the timer wheel has to be
/// longer than a tick.
pub fn setup_generator(setup: Setup) -> (r: Pipeline)
    requires
        0 < setup.tick_length < setup.wheel_resolution,
    ensures
        r.steering == (Steering {
            mac: setup.me.mac,
            ip: setup.flow_ip,
            port: setup.me.port,
            pipeline_ip: setup.pipeline_ip,
            tcp_min_port: setup.tcp_min_port,
        }),
        r.engine.inv(),
        r.engine.config == (Config {
            nr_connections: setup.nr_connections,
            me: setup.own_address(),
            servers: setup.servers,
            etype_packet: setup.etype_packet,
            etype_timer: setup.etype_timer,
            established: setup.established,
            millis_to_cycles: setup.millis_to_cycles,
            wheel_tick_reduction_factor: setup.wheel_resolution / setup.tick_length,
        }),
        forall|k: TcpControls| #[trigger] r.engine.counter_to.count(k) == 0,
        forall|k: TcpControls| #[trigger] r.engine.counter_from.count(k) == 0,
        r.engine.ticks == 0,
{
    let mut me = setup.me;
    me.ip = setup.flow_ip;
    let steering = Steering {
        mac: me.mac,
        ip: me.ip,
        port: me.port,
        pipeline_ip: setup.pipeline_ip,
        tcp_min_port: setup.tcp_min_port,
    };
    let engine = Engine::new(
        Config {
            nr_connections: setup.nr_connections,
            me,
            servers: setup.servers,
            etype_packet: setup.etype_packet,
            etype_timer: setup.etype_timer,
            established: setup.established,
            millis_to_cycles: setup.millis_to_cycles,
            wheel_tick_reduction_factor: wheel_tick_reduction_factor(
                setup.wheel_resolution,
                setup.tick_length,
            ),
        },
    );
    Pipeline { steering, engine }
}

/// Gives the order in which the inputs of a pipeline are served: injected frames (0),
/// timer ticks (1) and frames from the network (2).
pub fn input_schedule() -> (r: Vec<usize>)
    ensures
        r@ == seq![0usize, 2, 0, 2, 0, 2, 0, 2, 0, 2, 1],
{
    let r: Vec<usize> = vec![0, 2, 0, 2, 0, 2, 0, 2, 0, 2, 1];
    assert(r@ =~= seq![0usize, 2, 0, 2, 0, 2, 0, 2, 0, 2, 1]);
    r
}

} // verus!
