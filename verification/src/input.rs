//! The input payload handed to the proving engine.
//!
//! In this core the payload is a single unsigned number `n`, defaulting to
//! `20` when the caller does not choose one. The engine consumes it in
//! serialized form; the encoding is the number's four bytes, least
//! significant first.

use vstd::prelude::*;

verus! {

/// The value of `n` when the caller does not choose one.
pub const DEFAULT_N: u32 = 20;

/// The payload the proving engine consumes: a single unsigned number.
#[derive(Clone, Copy, Debug, PartialEq, Eq, Structural)]
pub struct ProofInput {
    pub n: u32,
}

/// The four bytes of `n`, least significant first.
pub open spec fn le_bytes_of(n: u32) -> Seq<u8> {
    seq![
        (n & 0xff) as u8,
        ((n >> 8) & 0xff) as u8,
        ((n >> 16) & 0xff) as u8,
        ((n >> 24) & 0xff) as u8,
    ]
}

impl ProofInput {
    /// Builds the payload from the caller's choice, or from the documented
    /// default when there is none.
    pub fn build(requested: Option<u32>) -> (r: ProofInput)
        ensures
            requested matches Some(v) ==> r.n == v,
            requested is None ==> r.n == DEFAULT_N,
    {
        match requested {
            Some(v) => ProofInput { n: v },
            None => ProofInput { n: DEFAULT_N },
        }
    }

    /// Serializes the payload for the engine: `n`'s bytes, least
    /// significant first.
    pub fn to_le_bytes(&self) -> (r: Vec<u8>)
        ensures
            r@ == le_bytes_of(self.n),
    {
        let mut r: Vec<u8> = Vec::new();
        r.push((self.n & 0xff) as u8);
        r.push(((self.n >> 8) & 0xff) as u8);
        r.push(((self.n >> 16) & 0xff) as u8);
        r.push(((self.n >> 24) & 0xff) as u8);
        proof {
            assert(r@ =~= le_bytes_of(self.n));
        }
        r
    }
}

} // verus!
