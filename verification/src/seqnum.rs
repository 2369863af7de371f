//! Arithmetic on TCP sequence numbers.

use vstd::prelude::*;

verus! {

/// Where the numbering of connections starts.
pub const INITIAL_SEQN: u32 = 123456;

/// The sequence number `n` bytes after `x`; sequence numbers wrap at 2^32.
pub open spec fn seqn_after(x: u32, n: int) -> u32 {
    ((x + n) % 0x1_0000_0000) as u32
}

/// The sequence number with which the `n`-th SYN of a pipeline opens a connection:
/// consecutive connections start 2^12 bytes apart.
pub open spec fn client_isn(n: nat) -> u32 {
    seqn_after(INITIAL_SEQN, (n * 4096) as int)
}

/// The sequence number with which the `n`-th received SYN is answered: consecutive
/// connections start 2^6 bytes apart.
pub open spec fn server_isn(n: nat) -> u32 {
    seqn_after(INITIAL_SEQN, (n * 64) as int)
}

/// Advances a sequence number by `n` bytes.
pub fn advance(x: u32, n: u32) -> (r: u32)
    ensures
        r == seqn_after(x, n as int),
{
    x.wrapping_add(n)
}

/// Computes the initial sequence number of the connection opened by the `n`-th SYN.
pub fn client_seqn(n: usize) -> (r: u32)
    ensures
        r == client_isn(n as nat),
{
    let spread: u32 = #[verifier::truncate] ((n << 12) as u32);
    proof {
        assert(((n << 12) as u32) as int == (n * 4096) % 0x1_0000_0000) by (bit_vector);
        lemma_add_mod(INITIAL_SEQN as int, n * 4096);
    }
    INITIAL_SEQN.wrapping_add(spread)
}

/// Computes the initial sequence number of the answer to the `n`-th received SYN.
pub fn server_seqn(n: usize) -> (r: u32)
    ensures
        r == server_isn(n as nat),
{
    let spread: u32 = #[verifier::truncate] ((n << 6) as u32);
    proof {
        assert(((n << 6) as u32) as int == (n * 64) % 0x1_0000_0000) by (bit_vector);
        lemma_add_mod(INITIAL_SEQN as int, n * 64);
    }
    INITIAL_SEQN.wrapping_add(spread)
}

proof fn lemma_add_mod(x: int, y: int)
    ensures
        (x + y % 0x1_0000_0000) % 0x1_0000_0000 == (x + y) % 0x1_0000_0000,
{
    vstd::arithmetic::div_mod::lemma_add_mod_noop_right(x, y, 0x1_0000_0000);
}

} // verus!
