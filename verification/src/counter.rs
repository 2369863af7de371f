//! Counters of the TCP control segments that a pipeline sent and received.

use vstd::prelude::*;

verus! {

/// What is counted.
#[derive(Clone, Copy, Debug, PartialEq, Eq, Structural)]
pub enum TcpControls {
    SentSyn,
    SentSynAck,
    SentAck,
    SentFinAck,
    RecvSyn,
    RecvSynAck,
    RecvSynAck2,
    RecvFin,
    RecvFinAck,
    RecvFinAck2,
    RecvRst,
    Unexpected,
}

/// One counter for each of [`TcpControls`].
#[derive(Clone, Copy, Debug, PartialEq, Eq, Structural)]
pub struct TcpCounter {
    pub sent_syn: usize,
    pub sent_syn_ack: usize,
    pub sent_ack: usize,
    pub sent_fin_ack: usize,
    pub recv_syn: usize,
    pub recv_syn_ack: usize,
    pub recv_syn_ack2: usize,
    pub recv_fin: usize,
    pub recv_fin_ack: usize,
    pub recv_fin_ack2: usize,
    pub recv_rst: usize,
    pub unexpected: usize,
}

impl TcpCounter {
    /// How often `k` was counted.
    pub open spec fn count(self, k: TcpControls) -> nat {
        match k {
            TcpControls::SentSyn => self.sent_syn as nat,
            TcpControls::SentSynAck => self.sent_syn_ack as nat,
            TcpControls::SentAck => self.sent_ack as nat,
            TcpControls::SentFinAck => self.sent_fin_ack as nat,
            TcpControls::RecvSyn => self.recv_syn as nat,
            TcpControls::RecvSynAck => self.recv_syn_ack as nat,
            TcpControls::RecvSynAck2 => self.recv_syn_ack2 as nat,
            TcpControls::RecvFin => self.recv_fin as nat,
            TcpControls::RecvFinAck => self.recv_fin_ack as nat,
            TcpControls::RecvFinAck2 => self.recv_fin_ack2 as nat,
            TcpControls::RecvRst => self.recv_rst as nat,
            TcpControls::Unexpected => self.unexpected as nat,
        }
    }

    /// These are the counters `before` after each of `ks` was counted once, and
    /// nothing else.
    pub open spec fn counts_up(self, before: TcpCounter, ks: Set<TcpControls>) -> bool {
        forall|k: TcpControls| #[trigger]
            self.count(k) == before.count(k) + (if ks.contains(k) {
                1int
            } else {
                0
            })
    }

    /// Each of `ks` can be counted once more.
    pub open spec fn has_room(self, ks: Set<TcpControls>) -> bool {
        forall|k: TcpControls| ks.contains(k) ==> #[trigger] self.count(k) < usize::MAX
    }

    /// Counters with nothing counted.
    pub fn new() -> (r: TcpCounter)
        ensures
            forall|k: TcpControls| #[trigger] r.count(k) == 0,
    {
        TcpCounter {
            sent_syn: 0,
            sent_syn_ack: 0,
            sent_ack: 0,
            sent_fin_ack: 0,
            recv_syn: 0,
            recv_syn_ack: 0,
            recv_syn_ack2: 0,
            recv_fin: 0,
            recv_fin_ack: 0,
            recv_fin_ack2: 0,
            recv_rst: 0,
            unexpected: 0,
        }
    }

    /// Reads one counter.
    pub fn get(&self, k: TcpControls) -> (r: usize)
        ensures
            r == self.count(k),
    {
        match k {
            TcpControls::SentSyn => self.sent_syn,
            TcpControls::SentSynAck => self.sent_syn_ack,
            TcpControls::SentAck => self.sent_ack,
            TcpControls::SentFinAck => self.sent_fin_ack,
            TcpControls::RecvSyn => self.recv_syn,
            TcpControls::RecvSynAck => self.recv_syn_ack,
            TcpControls::RecvSynAck2 => self.recv_syn_ack2,
            TcpControls::RecvFin => self.recv_fin,
            TcpControls::RecvFinAck => self.recv_fin_ack,
            TcpControls::RecvFinAck2 => self.recv_fin_ack2,
            TcpControls::RecvRst => self.recv_rst,
            TcpControls::Unexpected => self.unexpected,
        }
    }

    /// Tests whether `k` can be counted once more.
    pub fn has_room_for(&self, k: TcpControls) -> (r: bool)
        ensures
            r == (self.count(k) < usize::MAX),
    {
        self.get(k) < usize::MAX
    }

    /// Counts `k` once.
    #[verifier::rlimit(60)]
    pub fn bump(&mut self, k: TcpControls)
        requires
            old(self).count(k) < usize::MAX,
        ensures
            final(self).counts_up(*old(self), set![k]),
    {
        match k {
            TcpControls::SentSyn => {
                self.sent_syn += 1;
            },
            TcpControls::SentSynAck => {
                self.sent_syn_ack += 1;
            },
            TcpControls::SentAck => {
                self.sent_ack += 1;
            },
            TcpControls::SentFinAck => {
                self.sent_fin_ack += 1;
            },
            TcpControls::RecvSyn => {
                self.recv_syn += 1;
            },
            TcpControls::RecvSynAck => {
                self.recv_syn_ack += 1;
            },
            TcpControls::RecvSynAck2 => {
                self.recv_syn_ack2 += 1;
            },
            TcpControls::RecvFin => {
                self.recv_fin += 1;
            },
            TcpControls::RecvFinAck => {
                self.recv_fin_ack += 1;
            },
            TcpControls::RecvFinAck2 => {
                self.recv_fin_ack2 += 1;
            },
            TcpControls::RecvRst => {
                self.recv_rst += 1;
            },
            TcpControls::Unexpected => {
                self.unexpected += 1;
            },
        }
    }
}

} // verus!
