//! What a timer tick brings about.

use vstd::prelude::*;

verus! {

/// A request from the main program that the generator answers.
#[derive(Clone, Copy, Debug, PartialEq, Eq, Structural)]
pub enum Message {
    FetchCounter,
    FetchCRecords,
}

/// What is sent to the main program.
#[derive(Clone, Copy, Debug, PartialEq, Eq, Structural)]
pub enum Report {
    /// Both counters.
    Counters,
    /// The records of all connections; those still open are closed off first.
    Records,
}

/// The answer to each request.
pub open spec fn report_to(message: Option<Message>) -> Option<Report> {
    match message {
        Some(Message::FetchCounter) => Some(Report::Counters),
        Some(Message::FetchCRecords) => Some(Report::Records),
        None => None,
    }
}

/// The timer wheel is turned on tick number `ticks`: on every `factor`-th one.
pub open spec fn wheel_due(ticks: int, factor: int) -> bool {
    ticks % factor == 0
}

/// Computes how many ticks make one slot of a timer wheel.
pub fn wheel_tick_reduction_factor(resolution: u64, tick_length: u64) -> (r: u64)
    requires
        0 < tick_length < resolution,
    ensures
        r == resolution / tick_length,
        r >= 1,
{
    proof {
        vstd::arithmetic::div_mod::lemma_div_is_ordered(
            tick_length as int,
            resolution as int,
            tick_length as int,
        );
        vstd::arithmetic::div_mod::lemma_div_by_self(tick_length as int);
    }
    resolution / tick_length
}

/// Chooses the answer to a request.
pub fn report(message: Option<Message>) -> (r: Option<Report>)
    ensures
        r == report_to(message),
{
    match message {
        Some(Message::FetchCounter) => Some(Report::Counters),
        Some(Message::FetchCRecords) => Some(Report::Records),
        None => None,
    }
}

} // verus!
