//! Hexadecimal text: two digits per byte, most significant nibble first.

use vstd::prelude::*;

verus! {

/// The value of one hexadecimal digit, in either case; `None` for any other byte.
pub open spec fn digit_value(c: u8) -> Option<u8> {
    if 0x30 <= c <= 0x39 {
        Some((c - 0x30) as u8)
    } else if 0x61 <= c <= 0x66 {
        Some((c - 0x61 + 10) as u8)
    } else if 0x41 <= c <= 0x46 {
        Some((c - 0x41 + 10) as u8)
    } else {
        None
    }
}

/// The lower-case digit that stands for a nibble.
pub open spec fn digit_of(n: u8) -> u8
    recommends
        n < 16,
{
    if n < 10 {
        (0x30 + n) as u8
    } else {
        (0x61 + (n - 10)) as u8
    }
}

/// Every byte of `text` is a hexadecimal digit.
pub open spec fn all_digits(text: Seq<u8>) -> bool {
    forall|i: int| 0 <= i < text.len() ==> (#[trigger] digit_value(text[i])).is_some()
}

/// `text` spells whole bytes: an even number of hexadecimal digits.
pub open spec fn is_hex(text: Seq<u8>) -> bool {
    text.len() % 2 == 0 && all_digits(text)
}

/// The lower-case spelling of `bytes`.
pub open spec fn encoded(bytes: Seq<u8>) -> Seq<u8> {
    Seq::new(
        2 * bytes.len(),
        |i: int|
            if i % 2 == 0 {
                digit_of(bytes[i / 2] / 16)
            } else {
                digit_of(bytes[i / 2] % 16)
            },
    )
}

/// The bytes that `text` spells, where `is_hex(text)`.
pub open spec fn decoded(text: Seq<u8>) -> Seq<u8> {
    Seq::new(
        text.len() / 2,
        |i: int| (digit_value(text[2 * i]).unwrap() * 16 + digit_value(text[2 * i + 1]).unwrap()) as u8,
    )
}

/// Decoding undoes encoding, and an encoding is always well formed.
pub proof fn lemma_decode_encoded(bytes: Seq<u8>)
    ensures
        is_hex(encoded(bytes)),
        encoded(bytes).len() == 2 * bytes.len(),
        decoded(encoded(bytes)) == bytes,
{
    let text = encoded(bytes);
    assert forall|i: int| 0 <= i < text.len() implies (#[trigger] digit_value(text[i])).is_some() by {
        let b = bytes[i / 2];
        assert(b / 16 < 16 && b % 16 < 16);
    }
    assert forall|i: int| 0 <= i < bytes.len() implies decoded(text)[i] == bytes[i] by {
        let b = bytes[i];
        assert((2 * i) / 2 == i && (2 * i + 1) / 2 == i);
        assert((2 * i) % 2 == 0 && (2 * i + 1) % 2 == 1);
        assert(text[2 * i] == digit_of(b / 16));
        assert(text[2 * i + 1] == digit_of(b % 16));
        assert(digit_value(digit_of(b / 16)) == Some((b / 16) as u8));
        assert(digit_value(digit_of(b % 16)) == Some((b % 16) as u8));
        assert((b / 16) * 16 + b % 16 == b);
    }
    assert(decoded(text) =~= bytes);
}

/// The value of one digit.
pub fn digit(c: u8) -> (r: Option<u8>)
    ensures
        r == digit_value(c),
        r matches Some(v) ==> v < 16,
{
    if 0x30 <= c && c <= 0x39 {
        Some(c - 0x30)
    } else if 0x61 <= c && c <= 0x66 {
        Some(c - 0x61 + 10)
    } else if 0x41 <= c && c <= 0x46 {
        Some(c - 0x41 + 10)
    } else {
        None
    }
}

fn nibble(n: u8) -> (r: u8)
    requires
        n < 16,
    ensures
        r == digit_of(n),
{
    if n < 10 {
        0x30 + n
    } else {
        0x61 + (n - 10)
    }
}

/// Appends the lower-case spelling of `bytes` to `out`.
pub fn encode_into(bytes: &[u8], out: &mut Vec<u8>)
    ensures
        final(out)@ == old(out)@ + encoded(bytes@),
{
    let ghost start = out@;
    let mut i: usize = 0;
    while i < bytes.len()
        invariant
            0 <= i <= bytes.len(),
            out@.len() == start.len() + 2 * i,
            out@ == start + encoded(bytes@).subrange(0, 2 * i as int),
        decreases bytes.len() - i,
    {
        let b: u8 = bytes[i];
        let ghost before = out@;
        out.push(nibble(b / 16));
        out.push(nibble(b % 16));
        proof {
            let e = encoded(bytes@);
            assert((2 * i) / 2 == i && (2 * i + 1) / 2 == i);
            assert((2 * i) % 2 == 0 && (2 * i + 1) % 2 == 1);
            assert(e[2 * i as int] == digit_of(b / 16));
            assert(e[2 * i as int + 1] == digit_of(b % 16));
            assert(out@ =~= start + e.subrange(0, 2 * (i + 1) as int));
        }
        i = i + 1;
    }
    proof {
        assert(encoded(bytes@).subrange(0, 2 * i as int) =~= encoded(bytes@));
    }
}

/// The bytes that `text` spells, or `None` where `text` is not an even number
/// of hexadecimal digits.
pub fn decode(text: &[u8]) -> (r: Option<Vec<u8>>)
    ensures
        r.is_some() <==> is_hex(text@),
        r matches Some(bytes) ==> bytes@ == decoded(text@),
{
    let n: usize = text.len();
    if n % 2 != 0 {
        return None;
    }
    let mut out: Vec<u8> = Vec::new();
    let mut i: usize = 0;
    while i < n / 2
        invariant
            n == text.len(),
            n % 2 == 0,
            0 <= i <= n / 2,
            out@.len() == i,
            forall|k: int| 0 <= k < 2 * i ==> (#[trigger] digit_value(text@[k])).is_some(),
            forall|k: int| 0 <= k < i ==> out@[k] == decoded(text@)[k],
        decreases n / 2 - i,
    {
        let hi = digit(text[2 * i]);
        let lo = digit(text[2 * i + 1]);
        match (hi, lo) {
            (Some(h), Some(l)) => {
                out.push(h * 16 + l);
            },
            _ => {
                proof {
                    assert(!all_digits(text@)) by {
                        if all_digits(text@) {
                            assert(digit_value(text@[2 * i as int]).is_some());
                            assert(digit_value(text@[2 * i as int + 1]).is_some());
                        }
                    }
                }
                return None;
            },
        }
        i = i + 1;
    }
    proof {
        assert(out@ =~= decoded(text@));
    }
    Some(out)
}

} // verus!
