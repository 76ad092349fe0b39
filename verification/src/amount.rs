//! Token amounts: unsigned 256-bit integers, and their big-endian words.

use vstd::prelude::*;

verus! {

/// The byte of `v` at place `i`, counted from the most significant one.
pub open spec fn be_byte(v: u128, i: int) -> u8
    recommends
        0 <= i < 16,
{
    ((v >> ((8 * (15 - i)) as u128)) & 0xff) as u8
}

/// The 32-byte big-endian word of a 64-bit number.
pub open spec fn u64_word(v: u64) -> Seq<u8> {
    Seq::new(32, |i: int| if i < 16 { 0u8 } else { be_byte(v as u128, i - 16) })
}

/// The 8 big-endian bytes of a 64-bit number.
pub open spec fn u64_bytes(v: u64) -> Seq<u8> {
    Seq::new(8, |i: int| be_byte(v as u128, i + 8))
}

fn byte_at(v: u128, i: usize) -> (r: u8)
    requires
        i < 16,
    ensures
        r == be_byte(v, i as int),
{
    let shift: u128 = 8 * (15 - i as u128);
    let low: u128 = (v >> shift) & 0xff;
    assert(low < 256) by (bit_vector)
        requires
            low == (v >> shift) & 0xff,
    ;
    low as u8
}

/// An amount of a token, in its smallest unit: `hi * 2^128 + lo`.
#[derive(Clone, Copy, Debug, PartialEq, Eq, Structural)]
pub struct TokenAmount {
    pub hi: u128,
    pub lo: u128,
}

impl TokenAmount {
    /// The number that the amount stands for.
    pub open spec fn value(self) -> nat {
        (self.hi as nat) * 0x1_0000_0000_0000_0000_0000_0000_0000_0000nat + (self.lo as nat)
    }

    /// The 32-byte big-endian word of the amount.
    pub open spec fn word(self) -> Seq<u8> {
        Seq::new(32, |i: int| if i < 16 { be_byte(self.hi, i) } else { be_byte(self.lo, i - 16) })
    }

    /// The amount `v`.
    pub fn from_u128(v: u128) -> (r: TokenAmount)
        ensures
            r.value() == v,
            r == (TokenAmount { hi: 0, lo: v }),
    {
        TokenAmount { hi: 0, lo: v }
    }

    /// Whether the amount is at least `required`.
    pub fn covers(&self, required: &TokenAmount) -> (r: bool)
        ensures
            r == (self.value() >= required.value()),
    {
        if self.hi != required.hi {
            self.hi > required.hi
        } else {
            self.lo >= required.lo
        }
    }

    /// The amount as the low 64 bits, where it has no higher ones.
    pub fn as_u64(&self) -> (r: Option<u64>)
        ensures
            r.is_some() <==> self.value() <= u64::MAX,
            r matches Some(v) ==> v == self.value(),
    {
        if self.hi == 0 && self.lo <= 0xffff_ffff_ffff_ffff {
            Some(self.lo as u64)
        } else {
            None
        }
    }

    /// Appends the 32-byte big-endian word of the amount to `out`.
    pub fn write_word(&self, out: &mut Vec<u8>)
        ensures
            final(out)@ == old(out)@ + self.word(),
    {
        let ghost start = out@;
        let mut i: usize = 0;
        while i < 32
            invariant
                0 <= i <= 32,
                out@ == start + self.word().subrange(0, i as int),
            decreases 32 - i,
        {
            let b = if i < 16 {
                byte_at(self.hi, i)
            } else {
                byte_at(self.lo, i - 16)
            };
            out.push(b);
            proof {
                assert(out@ =~= start + self.word().subrange(0, i + 1));
            }
            i = i + 1;
        }
        proof {
            assert(self.word().subrange(0, 32) =~= self.word());
        }
    }
}

/// Appends the 32-byte big-endian word of `v` to `out`.
pub fn write_u64_word(v: u64, out: &mut Vec<u8>)
    ensures
        final(out)@ == old(out)@ + u64_word(v),
{
    let ghost start = out@;
    let mut i: usize = 0;
    while i < 32
        invariant
            0 <= i <= 32,
            out@ == start + u64_word(v).subrange(0, i as int),
        decreases 32 - i,
    {
        let b = if i < 16 {
            0u8
        } else {
            byte_at(v as u128, i - 16)
        };
        out.push(b);
        proof {
            assert(out@ =~= start + u64_word(v).subrange(0, i + 1));
        }
        i = i + 1;
    }
    proof {
        assert(u64_word(v).subrange(0, 32) =~= u64_word(v));
    }
}

/// Appends the 8 big-endian bytes of `v` to `out`.
pub fn write_u64_bytes(v: u64, out: &mut Vec<u8>)
    ensures
        final(out)@ == old(out)@ + u64_bytes(v),
{
    let ghost start = out@;
    let mut i: usize = 0;
    while i < 8
        invariant
            0 <= i <= 8,
            out@ == start + u64_bytes(v).subrange(0, i as int),
        decreases 8 - i,
    {
        out.push(byte_at(v as u128, i + 8));
        proof {
            assert(out@ =~= start + u64_bytes(v).subrange(0, i + 1));
        }
        i = i + 1;
    }
    proof {
        assert(u64_bytes(v).subrange(0, 8) =~= u64_bytes(v));
    }
}

} // verus!
