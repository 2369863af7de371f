//! Where a frame goes after it was handled, and what follows for its connection.

use vstd::prelude::*;

verus! {

/// Group of the frames that are dropped.
pub const DUMP: usize = 0;

/// Group of the frames that are sent to the network.
pub const TO_PCI: usize = 1;

/// Group of the frames that are handed to the kernel.
pub const TO_KNI: usize = 2;

/// What becomes of a frame and of the connection that it belongs to.
#[derive(Clone, Copy, Debug, PartialEq, Eq, Structural)]
pub struct Verdict {
    /// One of [`DUMP`], [`TO_PCI`] and [`TO_KNI`].
    pub group: usize,
    /// The port whose connection is to be released.
    pub release: Option<u16>,
    /// The port whose connection is ready to carry data.
    pub ready: Option<u16>,
}

} // verus!
