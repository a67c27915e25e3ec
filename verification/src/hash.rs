//! The string hash behind the numeric suffix of an identifier.

use vstd::prelude::*;

verus! {

/// The value every running hash starts from.
pub const SEED: u32 = 5381;

/// The factor by which the running hash grows with each byte.
pub const MULTIPLIER: u32 = 33;

/// One step of the recurrence: `h * 33 + byte`, reduced modulo `2^32`.
pub open spec fn step(h: nat, byte: u8) -> nat {
    (h * MULTIPLIER as nat + byte as nat) % 0x1_0000_0000
}

/// The hash of a byte string: the recurrence `h' = h * 33 + byte` run from
/// 5381 over the bytes in order, with every step reduced modulo `2^32`.
pub open spec fn djb2(bytes: Seq<u8>) -> nat
    decreases bytes.len(),
{
    if bytes.len() == 0 {
        SEED as nat
    } else {
        step(djb2(bytes.drop_last()), bytes.last())
    }
}

/// The hash never leaves the range of a `u32`.
pub proof fn djb2_fits_u32(bytes: Seq<u8>)
    ensures
        djb2(bytes) <= u32::MAX,
    decreases bytes.len(),
{
    if bytes.len() > 0 {
        djb2_fits_u32(bytes.drop_last());
    }
}

/// Advances a running hash by one byte, wrapping on overflow.
pub fn advance(h: u32, byte: u8) -> (next: u32)
    ensures
        next == step(h as nat, byte),
{
    let scaled: u32 = h.wrapping_mul(MULTIPLIER);
    let next: u32 = scaled.wrapping_add(byte as u32);
    proof {
        let range: nat = 0x1_0000_0000;
        let product: nat = h as nat * 33;
        assert(scaled as nat == product % range);
        assert((product % range + byte as nat) % range == (product + byte as nat) % range)
            by (nonlinear_arith)
            requires
                range > 0,
        ;
    }
    next
}

/// Hashes a byte string.
pub fn hash_bytes(bytes: &[u8]) -> (h: u32)
    ensures
        h == djb2(bytes@),
{
    let mut h: u32 = SEED;
    let mut i: usize = 0;
    while i < bytes.len()
        invariant
            i <= bytes.len(),
            h == djb2(bytes@.take(i as int)),
        decreases bytes.len() - i,
    {
        proof {
            let next = bytes@.take(i + 1);
            assert(next.drop_last() == bytes@.take(i as int));
            assert(next.last() == bytes@[i as int]);
        }
        h = advance(h, bytes[i]);
        i += 1;
    }
    proof {
        assert(bytes@.take(i as int) == bytes@);
    }
    h
}

} // verus!
