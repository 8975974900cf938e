//! The reference computation for the execute mode.
//!
//! In execute mode the engine's reported output is held against a value
//! recomputed here, independently of the proving path: a pure function of
//! the run's input, callable in isolation. The program under proof advances
//! a linear recurrence; the oracle states the same recurrence directly,
//! with every step reduced modulo the 32-bit word.

use vstd::prelude::*;

verus! {

/// The word the recurrence is carried in: values stay below 2^32.
pub const WORD: u64 = 0x1_0000_0000;

/// The expected output for input `n`: the `n`-th element of the Fibonacci
/// recurrence, each step taken modulo 2^32.
pub open spec fn reference_spec(n: nat) -> nat
    decreases n,
{
    if n == 0 {
        0
    } else if n == 1 {
        1
    } else {
        (reference_spec((n - 1) as nat) + reference_spec((n - 2) as nat)) % (WORD as nat)
    }
}

/// The reference value always fits in the 32-bit word.
pub proof fn lemma_reference_fits(n: nat)
    ensures
        reference_spec(n) < WORD,
{
}

/// Computes the reference value for input `n`.
pub fn reference_output(n: u32) -> (r: u32)
    ensures
        r == reference_spec(n as nat),
{
    if n == 0 {
        return 0;
    }
    let mut a: u32 = 0;
    let mut b: u32 = 1;
    let mut i: u32 = 1;
    while i < n
        invariant
            1 <= i <= n,
            a == reference_spec((i - 1) as nat),
            b == reference_spec(i as nat),
        decreases n - i,
    {
        let c: u32 = (((a as u64) + (b as u64)) % WORD) as u32;
        proof {
            assert(c == reference_spec((i + 1) as nat));
        }
        a = b;
        b = c;
        i = i + 1;
    }
    b
}

} // verus!
