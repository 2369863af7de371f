//! The decisions of a TCP traffic generator: which frames a pipeline keeps, what it
//! answers to a segment, when it opens and releases connections.
//!
//! Nothing here touches a queue, a clock or a channel. A caller turns a frame into plain
//! values, asks the [`engine`] what to look up, hands back what was found, and carries
//! out what the engine returns.

pub mod client;
pub mod connection;
pub mod counter;
pub mod engine;
pub mod headers;
pub mod laws;
pub mod packet;
pub mod payload;
pub mod segments;
pub mod seqnum;
pub mod server;
pub mod setup;
pub mod steering;
pub mod timer;
pub mod verdict;
