//! The handling of a frame from lookup to verdict.
//!
//! [`Engine::lookup`] says which connection a frame concerns, [`Engine::process`] takes
//! what was found and decides. Between the two the caller consults the owner of the
//! connections; afterwards it carries out the [`Outcome`].

use crate::client::{self, classify_client, client_has_room, client_segment};
use crate::connection::{Connection, ConnectionView, RecordOp, TcpState};
use crate::counter::{TcpControls, TcpCounter};
use crate::headers::{do_ttl, HeaderState, L234Data, SocketAddr};
use crate::packet::{self, can_remove_tcp_options, Packet, PacketView};
use crate::payload::{self, reply_payload};
use crate::segments::{self, generate_syn, make_payload_packet};
use crate::server::{self, classify_server, server_has_room, server_segment, ServerEvent};
use crate::timer::{self, report, Message, Report};
use crate::verdict::{Verdict, DUMP, TO_KNI, TO_PCI};
use vstd::prelude::*;

verus! {

/// What stays the same while a pipeline runs.
#[derive(Debug)]
pub struct Config {
    /// Number of connections that the pipeline opens.
    pub nr_connections: usize,
    /// Address from which connections are opened.
    pub me: L234Data,
    /// Addresses to which connections are opened.
    pub servers: Vec<L234Data>,
    /// EtherType of the frames that the generator makes into segments.
    pub etype_packet: u16,
    /// EtherType of the timer ticks.
    pub etype_timer: u16,
    /// Milliseconds after which an open connection times out.
    pub established: Option<u64>,
    /// Clock cycles in a millisecond.
    pub millis_to_cycles: u64,
    /// Ticks in one slot of the timer wheel.
    pub wheel_tick_reduction_factor: u64,
}

/// The state of a pipeline.
#[derive(Debug)]
pub struct Engine {
    pub config: Config,
    /// Counts the segments of the client side.
    pub counter_to: TcpCounter,
    /// Counts the segments of the server side.
    pub counter_from: TcpCounter,
    /// Timer ticks so far.
    pub ticks: u64,
}

/// What has to be looked up before a frame can be processed.
#[derive(Clone, Copy, Debug, PartialEq, Eq, Structural)]
pub enum Lookup {
    /// A new connection.
    Create,
    /// A connection that is ready to carry data.
    NextReady,
    /// A request of the main program.
    Poll,
    /// The connection with a remote socket, made if there is none.
    InsertSource(SocketAddr),
    /// The connection with a remote socket.
    FindSource(SocketAddr),
    /// The connection on a port.
    FindPort(u16),
}

/// What was found.
#[derive(Debug)]
pub enum Answer {
    /// Answers [`Lookup::Create`], with the number of connections that were ready
    /// before the new one was made.
    Created { ready_connections: usize, connection: Option<Connection> },
    /// Answers [`Lookup::NextReady`]; without a connection, tells too whether frames to be
    /// made into segments are still being injected.
    NextReady { connection: Option<Connection>, injector_runs: bool },
    /// Answers [`Lookup::Poll`].
    Polled(Option<Message>),
    /// Answers [`Lookup::InsertSource`] and [`Lookup::FindSource`].
    Source(Option<Connection>),
    /// Answers [`Lookup::FindPort`].
    Port(Option<Connection>),
}

/// A timeout to be set for a connection.
#[derive(Clone, Copy, Debug, PartialEq, Eq, Structural)]
pub struct Timeout {
    pub cycles: u64,
    pub port: u16,
}

/// What is to be done once a frame was processed.
#[derive(Debug)]
pub struct Outcome {
    pub verdict: Verdict,
    /// The connection, as it is to be stored.
    pub connection: Option<Connection>,
    /// SYN counts to be reported with a time stamp, in order.
    pub stamps: Vec<usize>,
    pub schedule: Option<Timeout>,
    /// Frames need not be injected any more.
    pub stop_injector: bool,
    pub report: Option<Report>,
    /// Connections that timed out are to be released.
    pub release_timeouts: bool,
}

/// The contents of an [`Outcome`].
#[verifier::ext_equal]
pub struct OutcomeView {
    pub verdict: Verdict,
    pub connection: Option<ConnectionView>,
    pub stamps: Seq<usize>,
    pub schedule: Option<Timeout>,
    pub stop_injector: bool,
    pub report: Option<Report>,
    pub release_timeouts: bool,
}

/// Contents of an optional connection.
pub open spec fn view_of(c: Option<Connection>) -> Option<ConnectionView> {
    match c {
        Some(c) => Some(c@),
        None => None,
    }
}

impl View for Outcome {
    type V = OutcomeView;

    open spec fn view(&self) -> OutcomeView {
        OutcomeView {
            verdict: self.verdict,
            connection: view_of(self.connection),
            stamps: self.stamps@,
            schedule: self.schedule,
            stop_injector: self.stop_injector,
            report: self.report,
            release_timeouts: self.release_timeouts,
        }
    }
}

impl OutcomeView {
    /// The verdict on a frame, and nothing else.
    pub open spec fn only(verdict: Verdict, connection: Option<ConnectionView>) -> OutcomeView {
        OutcomeView {
            verdict,
            connection,
            stamps: seq![],
            schedule: None,
            stop_injector: false,
            report: None,
            release_timeouts: false,
        }
    }
}

/// A verdict that sends the frame to `group` and leaves all connections alone.
pub open spec fn sends_to(group: usize) -> Verdict {
    Verdict { group, release: None, ready: None }
}

impl Outcome {
    /// The verdict on a frame, and nothing else.
    fn only(verdict: Verdict, connection: Option<Connection>) -> (r: Outcome)
        ensures
            r@ == OutcomeView::only(verdict, view_of(connection)),
    {
        Outcome {
            verdict,
            connection,
            stamps: Vec::new(),
            schedule: None,
            stop_injector: false,
            report: None,
            release_timeouts: false,
        }
    }

    /// Sends the frame to `group` and leaves all connections alone.
    fn sent_to(group: usize, connection: Option<Connection>) -> (r: Outcome)
        ensures
            r@ == OutcomeView::only(sends_to(group), view_of(connection)),
    {
        Outcome::only(Verdict { group, release: None, ready: None }, connection)
    }
}

/// Everything that the processing of a frame brings about, but for the hop count.
#[verifier::ext_equal]
pub struct Step {
    pub out: OutcomeView,
    pub h: HeaderState,
    pub p: PacketView,
    /// What the client side counts.
    pub counts_to: Set<TcpControls>,
    /// What the server side counts.
    pub counts_from: Set<TcpControls>,
    /// Whether the tick counter goes on.
    pub ticked: bool,
}

impl Step {
    /// A frame that changes nothing but `out`.
    pub open spec fn idle(out: OutcomeView, h: HeaderState, p: PacketView) -> Step {
        Step {
            out,
            h,
            p,
            counts_to: Set::empty(),
            counts_from: Set::empty(),
            ticked: false,
        }
    }
}

impl Answer {
    /// The connection that was found.
    pub open spec fn found(self) -> Option<ConnectionView> {
        match self {
            Answer::Created { connection, .. } => view_of(connection),
            Answer::NextReady { connection, .. } => view_of(connection),
            Answer::Polled(_) => None,
            Answer::Source(connection) => view_of(connection),
            Answer::Port(connection) => view_of(connection),
        }
    }

    /// This is an answer to `lookup`.
    pub open spec fn answers(self, lookup: Lookup) -> bool {
        match lookup {
            Lookup::Create => self is Created,
            Lookup::NextReady => self is NextReady,
            Lookup::Poll => self is Polled,
            Lookup::InsertSource(_) | Lookup::FindSource(_) => self is Source,
            Lookup::FindPort(_) => self is Port,
        }
    }
}

impl Engine {
    /// No more connections were opened than asked for, and the timer wheel turns.
    pub open spec fn inv(self) -> bool {
        &&& self.counter_to.sent_syn <= self.config.nr_connections
        &&& self.config.wheel_tick_reduction_factor > 0
    }

    /// What has to be looked up for a frame with the headers `h`, when the pipeline
    /// listens on `special_port`.
    pub open spec fn lookup_for(self, h: HeaderState, special_port: u16) -> Lookup {
        if h.mac.etype == self.config.etype_packet {
            if self.counter_to.sent_syn < self.config.nr_connections {
                Lookup::Create
            } else {
                Lookup::NextReady
            }
        } else if h.mac.etype == self.config.etype_timer {
            Lookup::Poll
        } else if h.tcp.dst_port == special_port {
            if h.tcp.syn {
                Lookup::InsertSource(h.spec_source())
            } else {
                Lookup::FindSource(h.spec_source())
            }
        } else {
            Lookup::FindPort(h.tcp.dst_port)
        }
    }

    /// The server to which the next SYN goes.
    pub open spec fn next_server(self) -> L234Data {
        self.config.servers@[self.counter_to.sent_syn as int % self.config.servers@.len() as int]
    }

    /// An injected frame while connections are still to be opened: it becomes the SYN
    /// of the new connection, if there is one. The first and the last SYN are reported.
    /// After the last one nothing is left to do for the injector, unless some connection
    /// was already ready.
    pub open spec fn created_step(
        self,
        p: PacketView,
        h: HeaderState,
        ready_connections: usize,
        connection: Option<ConnectionView>,
    ) -> Step {
        match connection {
            Some(c) => {
                let n = self.counter_to.sent_syn;
                let last = n + 1 == self.config.nr_connections;
                let syn = segments::syn_headers(
                    h,
                    self.next_server(),
                    c.port,
                    self.config.me,
                    n as nat,
                );
                Step {
                    out: OutcomeView {
                        stamps: (if n == 0 {
                            seq![0usize]
                        } else {
                            seq![]
                        }) + (if last {
                            seq![self.config.nr_connections]
                        } else {
                            seq![]
                        }),
                        schedule: Some(
                            Timeout {
                                cycles: (self.config.established->0
                                    * self.config.millis_to_cycles) as u64,
                                port: c.port,
                            },
                        ),
                        stop_injector: last && ready_connections == 0,
                        ..OutcomeView::only(
                            sends_to(TO_PCI),
                            Some(
                                segments::opened(
                                    c,
                                    n as nat,
                                    self.config.servers@.len(),
                                ).noted(RecordOp::PushCState(TcpState::SynSent)),
                            ),
                        )
                    },
                    counts_to: set![TcpControls::SentSyn],
                    ..Step::idle(
                        OutcomeView::only(sends_to(TO_PCI), None),
                        syn,
                        p.checksummed(syn.ip),
                    )
                }
            },
            None => Step::idle(OutcomeView::only(sends_to(DUMP), None), h, p),
        }
    }

    /// An injected frame once all connections were opened: it carries the socket `local`
    /// on a connection that is ready. With no such connection the injector is stopped.
    pub open spec fn ready_step(
        self,
        p: PacketView,
        h: HeaderState,
        local: SocketAddr,
        connection: Option<ConnectionView>,
        injector_runs: bool,
    ) -> Step {
        match connection {
            Some(c) => {
                let bytes = payload::socket_bytes(local);
                let segment = segments::payload_headers(
                    h,
                    self.config.servers@[c.server_index as int],
                    c,
                    self.config.me,
                    bytes.len(),
                );
                Step::idle(
                    OutcomeView::only(
                        sends_to(TO_PCI),
                        Some(segments::payload_sent(c, bytes.len())),
                    ),
                    segment,
                    p.carrying(bytes).padded().checksummed(segment.ip),
                )
            },
            None => Step::idle(
                OutcomeView {
                    stop_injector: injector_runs,
                    ..OutcomeView::only(sends_to(DUMP), None)
                },
                h,
                p,
            ),
        }
    }

    /// A timer tick: a request is answered, and every so many ticks the connections that
    /// timed out are released.
    pub open spec fn tick_step(self, p: PacketView, h: HeaderState, message: Option<Message>) -> Step {
        Step {
            ticked: true,
            ..Step::idle(
                OutcomeView {
                    report: timer::report_to(message),
                    release_timeouts: timer::wheel_due(
                        self.ticks + 1,
                        self.config.wheel_tick_reduction_factor as int,
                    ),
                    ..OutcomeView::only(sends_to(DUMP), None)
                },
                h,
                p,
            )
        }
    }

    /// A segment to the port on which the pipeline listens. A SYN counts as received
    /// even if no connection could be made for it.
    pub open spec fn source_step(
        self,
        p: PacketView,
        h: HeaderState,
        connection: Option<ConnectionView>,
    ) -> Step {
        let received = if h.tcp.syn {
            set![TcpControls::RecvSyn]
        } else {
            Set::empty()
        };
        match connection {
            Some(c) => {
                let event = server::server_event(h.tcp, c.s_state);
                let n = self.syns_received(h);
                Step {
                    counts_from: received.union(server::server_counts(event)),
                    ..Step::idle(
                        OutcomeView::only(
                            server::server_verdict(event, c.port),
                            Some(server::server_connection(event, c, h, n)),
                        ),
                        server::server_headers(event, h, c, n),
                        server::server_frame(event, p, h, n),
                    )
                }
            },
            None => Step {
                counts_from: received,
                ..Step::idle(OutcomeView::only(sends_to(DUMP), None), h, p)
            },
        }
    }

    /// SYNs received once the segment with the headers `h` is counted.
    pub open spec fn syns_received(self, h: HeaderState) -> nat {
        self.counter_from.count(TcpControls::RecvSyn) + if h.tcp.syn {
            1nat
        } else {
            0
        }
    }

    /// A segment to any other port. Without a connection the kernel answers it.
    pub open spec fn port_step(
        self,
        p: PacketView,
        h: HeaderState,
        connection: Option<ConnectionView>,
    ) -> Step {
        match connection {
            Some(c) => {
                let event = client::client_event(h.tcp, c);
                Step {
                    counts_to: client::client_counts(event),
                    ..Step::idle(
                        OutcomeView::only(
                            client::client_verdict(event, c.port),
                            Some(client::client_connection(event, c, h)),
                        ),
                        client::client_headers(event, h, c),
                        client::client_frame(event, p, h),
                    )
                }
            },
            None => Step::idle(OutcomeView::only(sends_to(TO_KNI), None), h, p),
        }
    }

    /// What the processing of a frame brings about, given what was found.
    pub open spec fn step(
        self,
        p: PacketView,
        h: HeaderState,
        local: SocketAddr,
        answer: Answer,
    ) -> Step {
        match answer {
            Answer::Created { ready_connections, connection } => self.created_step(
                p,
                h,
                ready_connections,
                view_of(connection),
            ),
            Answer::NextReady { connection, injector_runs } => self.ready_step(
                p,
                h,
                local,
                view_of(connection),
                injector_runs,
            ),
            Answer::Polled(message) => self.tick_step(p, h, message),
            Answer::Source(connection) => self.source_step(p, h, view_of(connection)),
            Answer::Port(connection) => self.port_step(p, h, view_of(connection)),
        }
    }

    /// This pipeline, by taking `step`, came to the state `after`, left the frame with
    /// the headers `h` and the contents `p`, and returned `out`.
    pub open spec fn led_to(
        self,
        step: Step,
        out: Outcome,
        h: HeaderState,
        p: Packet,
        after: Engine,
    ) -> bool {
        &&& out@ == step.out
        &&& h == step.h
        &&& p@ == step.p
        &&& after.config == self.config
        &&& after.counter_to.counts_up(self.counter_to, step.counts_to)
        &&& after.counter_from.counts_up(self.counter_from, step.counts_from)
        &&& after.ticks == self.ticks + if step.ticked {
            1int
        } else {
            0
        }
    }

    /// The timeout of an open connection is set and is a number of clock cycles that
    /// can be represented.
    pub open spec fn timeout_set(self) -> bool {
        &&& self.config.established is Some
        &&& self.config.established->0 * self.config.millis_to_cycles <= u64::MAX
    }

    /// The answer belongs to the frame, and the frame can be handled within the limits
    /// of its fields and of the counters.
    pub open spec fn processable(
        self,
        p: PacketView,
        h: HeaderState,
        local: SocketAddr,
        answer: Answer,
    ) -> bool {
        &&& answer.answers(self.lookup_for(h, local.port))
        &&& match answer {
            Answer::Created { connection: Some(_), .. } => {
                &&& self.config.servers@.len() > 0
                &&& self.timeout_set()
            },
            Answer::NextReady { connection: Some(c), .. } => {
                &&& c@.server_index < self.config.servers@.len()
                &&& p.data_len + payload::socket_bytes(local).len() <= usize::MAX
                &&& h.ip.length + payload::socket_bytes(local).len() <= u16::MAX
            },
            Answer::Polled(_) => self.ticks < u64::MAX,
            Answer::Source(connection) => {
                &&& h.tcp.syn ==> self.counter_from.recv_syn < usize::MAX
                &&& connection matches Some(c) ==> {
                    let event = server::server_event(h.tcp, c@.s_state);
                    &&& self.counter_from.has_room(server::server_counts(event))
                    &&& event == ServerEvent::Syn ==> packet::options_removable(
                        p.data_len,
                        h,
                    )
                }
            },
            Answer::Port(Some(c)) => self.counter_to.has_room(
                client::client_counts(client::client_event(h.tcp, c@)),
            ),
            _ => true,
        }
    }
}

/// Decides, when `ready_connections` are ready after one more became so, whether frames
/// have to be injected again: the first ready connection ends a pause of the injector.
pub fn restarts_injector(ready_connections: usize) -> (r: bool)
    ensures
        r == (ready_connections == 1),
{
    ready_connections == 1
}

impl Engine {
    /// A pipeline that handled no frame yet.
    pub fn new(config: Config) -> (r: Engine)
        requires
            config.wheel_tick_reduction_factor > 0,
        ensures
            r.inv(),
            r.config == config,
            forall|k: TcpControls| #[trigger] r.counter_to.count(k) == 0,
            forall|k: TcpControls| #[trigger] r.counter_from.count(k) == 0,
            r.ticks == 0,
    {
        let counter_to = TcpCounter::new();
        assert(counter_to.count(TcpControls::SentSyn) == 0);
        Engine { config, counter_to, counter_from: TcpCounter::new(), ticks: 0 }
    }

    /// Says what has to be looked up for a frame with the headers `h`, when the pipeline
    /// listens on `special_port`.
    pub fn lookup(&self, h: &HeaderState, special_port: u16) -> (r: Lookup)
        ensures
            r == self.lookup_for(*h, special_port),
    {
        if h.mac.etype == self.config.etype_packet {
            if self.counter_to.sent_syn < self.config.nr_connections {
                Lookup::Create
            } else {
                Lookup::NextReady
            }
        } else if h.mac.etype == self.config.etype_timer {
            Lookup::Poll
        } else if h.tcp.dst_port == special_port {
            if h.tcp.syn {
                Lookup::InsertSource(h.source())
            } else {
                Lookup::FindSource(h.source())
            }
        } else {
            Lookup::FindPort(h.tcp.dst_port)
        }
    }

    /// Handles an injected frame while connections are still to be opened.
    pub fn on_created(
        &mut self,
        p: &mut Packet,
        h: &mut HeaderState,
        ready_connections: usize,
        connection: Option<Connection>,
    ) -> (r: Outcome)
        requires
            old(self).counter_to.sent_syn < old(self).config.nr_connections,
            connection is Some ==> old(self).config.servers@.len() > 0 && old(self).timeout_set(),
        ensures
            old(self).inv() ==> final(self).inv(),
            old(self).led_to(
                old(self).created_step(old(p)@, *old(h), ready_connections, view_of(connection)),
                r,
                *final(h),
                *final(p),
                *final(self),
            ),
    {
        match connection {
            Some(mut c) => {
                let mut stamps: Vec<usize> = Vec::new();
                let mut stop_injector: bool = false;
                generate_syn(
                    p,
                    &mut c,
                    h,
                    &self.config.me,
                    &self.config.servers,
                    &mut stamps,
                    &mut self.counter_to.sent_syn,
                );
                c.push_c_state(TcpState::SynSent);
                let established: u64 = match self.config.established {
                    Some(millis) => millis,
                    None => 0,
                };
                let cycles: u64 = established * self.config.millis_to_cycles;
                let port: u16 = c.port;
                if self.counter_to.sent_syn == self.config.nr_connections {
                    stamps.push(self.counter_to.sent_syn);
                    if ready_connections == 0 {
                        stop_injector = true;
                    }
                }
                let r = Outcome {
                    stamps,
                    schedule: Some(Timeout { cycles, port }),
                    stop_injector,
                    ..Outcome::sent_to(TO_PCI, Some(c))
                };
                proof {
                    let step = old(self).created_step(
                        old(p)@,
                        *old(h),
                        ready_connections,
                        view_of(connection),
                    );
                    assert(r@.stamps =~= step.out.stamps);
                    assert(r@ =~= step.out);
                }
                r
            },
            None => Outcome::sent_to(DUMP, None),
        }
    }

    /// Handles an injected frame once all connections were opened.
    pub fn on_ready(
        &mut self,
        p: &mut Packet,
        h: &mut HeaderState,
        local: &SocketAddr,
        connection: Option<Connection>,
        injector_runs: bool,
    ) -> (r: Outcome)
        requires
            connection matches Some(c) ==> {
                &&& c@.server_index < old(self).config.servers@.len()
                &&& old(p)@.data_len + payload::socket_bytes(*local).len() <= usize::MAX
                &&& old(h).ip.length + payload::socket_bytes(*local).len() <= u16::MAX
            },
        ensures
            old(self).inv() ==> final(self).inv(),
            old(self).led_to(
                old(self).ready_step(old(p)@, *old(h), *local, view_of(connection), injector_runs),
                r,
                *final(h),
                *final(p),
                *final(self),
            ),
    {
        match connection {
            Some(mut c) => {
                let payload = reply_payload(local);
                make_payload_packet(
                    p,
                    &mut c,
                    h,
                    &self.config.me,
                    &self.config.servers,
                    &payload,
                );
                Outcome::sent_to(TO_PCI, Some(c))
            },
            None => Outcome { stop_injector: injector_runs, ..Outcome::sent_to(DUMP, None) },
        }
    }

    /// Handles a timer tick.
    pub fn on_tick(
        &mut self,
        p: &mut Packet,
        h: &mut HeaderState,
        message: Option<Message>,
    ) -> (r: Outcome)
        requires
            old(self).config.wheel_tick_reduction_factor > 0,
            old(self).ticks < u64::MAX,
        ensures
            old(self).inv() ==> final(self).inv(),
            old(self).led_to(
                old(self).tick_step(old(p)@, *old(h), message),
                r,
                *final(h),
                *final(p),
                *final(self),
            ),
    {
        self.ticks += 1;
        let release_timeouts: bool = self.ticks % self.config.wheel_tick_reduction_factor == 0;
        Outcome { report: report(message), release_timeouts, ..Outcome::sent_to(DUMP, None) }
    }

    /// Handles a segment to the port on which the pipeline listens.
    pub fn on_source(
        &mut self,
        p: &mut Packet,
        h: &mut HeaderState,
        connection: Option<Connection>,
    ) -> (r: Outcome)
        requires
            old(h).tcp.syn ==> old(self).counter_from.recv_syn < usize::MAX,
            connection matches Some(c) ==> {
                let event = server::server_event(old(h).tcp, c@.s_state);
                &&& old(self).counter_from.has_room(server::server_counts(event))
                &&& event == ServerEvent::Syn ==> packet::options_removable(
                    old(p)@.data_len,
                    *old(h),
                )
            },
        ensures
            old(self).inv() ==> final(self).inv(),
            old(self).led_to(
                old(self).source_step(old(p)@, *old(h), view_of(connection)),
                r,
                *final(h),
                *final(p),
                *final(self),
            ),
    {
        if h.tcp.syn {
            self.counter_from.bump(TcpControls::RecvSyn);
        }
        match connection {
            Some(mut c) => {
                let verdict = server_segment(p, &mut c, h, &mut self.counter_from);
                Outcome::only(verdict, Some(c))
            },
            None => Outcome::sent_to(DUMP, None),
        }
    }

    /// Handles a segment to any other port.
    pub fn on_port(
        &mut self,
        p: &mut Packet,
        h: &mut HeaderState,
        connection: Option<Connection>,
    ) -> (r: Outcome)
        requires
            connection matches Some(c) ==> old(self).counter_to.has_room(
                client::client_counts(client::client_event(old(h).tcp, c@)),
            ),
        ensures
            old(self).inv() ==> final(self).inv(),
            old(self).led_to(
                old(self).port_step(old(p)@, *old(h), view_of(connection)),
                r,
                *final(h),
                *final(p),
                *final(self),
            ),
    {
        match connection {
            Some(mut c) => {
                let verdict = client_segment(p, &mut c, h, &mut self.counter_to);
                // No event of the client side counts a SYN.
                assert(self.counter_to.count(TcpControls::SentSyn) == old(
                    self,
                ).counter_to.count(TcpControls::SentSyn));
                Outcome::only(verdict, Some(c))
            },
            None => Outcome::sent_to(TO_KNI, None),
        }
    }

    /// Tests whether [`Engine::process`] can be called.
    pub fn can_process(
        &self,
        p: &Packet,
        h: &HeaderState,
        local: &SocketAddr,
        answer: &Answer,
    ) -> (r: bool)
        ensures
            r == self.processable(p@, *h, *local, *answer),
    {
        assert(payload::socket_bytes(*local).len() == 6);
        match (self.lookup(h, local.port), answer) {
            (Lookup::Create, Answer::Created { connection, .. }) => {
                connection.is_none() || (self.config.servers.len() > 0
                    && match self.config.established {
                    Some(millis) => millis.checked_mul(self.config.millis_to_cycles).is_some(),
                    None => false,
                })
            },
            (Lookup::NextReady, Answer::NextReady { connection, .. }) => match connection {
                Some(c) => c.con_rec.server_index < self.config.servers.len() && p.data_len
                    <= usize::MAX - 6 && h.ip.length <= u16::MAX - 6,
                None => true,
            },
            (Lookup::Poll, Answer::Polled(_)) => self.ticks < u64::MAX,
            (Lookup::InsertSource(_) | Lookup::FindSource(_), Answer::Source(connection)) => {
                (!h.tcp.syn || self.counter_from.has_room_for(TcpControls::RecvSyn))
                    && match connection {
                    Some(c) => {
                        let event = classify_server(&h.tcp, &c.con_rec.s_state);
                        server_has_room(&self.counter_from, event) && (event != ServerEvent::Syn
                            || can_remove_tcp_options(p, h))
                    },
                    None => true,
                }
            },
            (Lookup::FindPort(_), Answer::Port(connection)) => match connection {
                Some(c) => client_has_room(&self.counter_to, classify_client(&h.tcp, c)),
                None => true,
            },
            _ => false,
        }
    }

    /// Processes a frame. `local` is the socket on which the pipeline listens, `answer`
    /// what was found for [`Engine::lookup`].
    pub fn process(
        &mut self,
        p: &mut Packet,
        h: &mut HeaderState,
        local: &SocketAddr,
        answer: Answer,
    ) -> (r: Outcome)
        requires
            old(self).inv(),
            old(self).processable(old(p)@, *old(h), *local, answer),
        ensures
            final(self).inv(),
            ({
                let step = old(self).step(old(p)@, *old(h), *local, answer);
                old(self).led_to(
                    Step { h: step.h.one_hop_on(), ..step },
                    r,
                    *final(h),
                    *final(p),
                    *final(self),
                )
            }),
    {
        let r = match answer {
            Answer::Created { ready_connections, connection } => self.on_created(
                p,
                h,
                ready_connections,
                connection,
            ),
            Answer::NextReady { connection, injector_runs } => self.on_ready(
                p,
                h,
                local,
                connection,
                injector_runs,
            ),
            Answer::Polled(message) => self.on_tick(p, h, message),
            Answer::Source(connection) => self.on_source(p, h, connection),
            Answer::Port(connection) => self.on_port(p, h, connection),
        };
        do_ttl(h);
        r
    }
}

} // verus!
