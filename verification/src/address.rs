//! Addresses of the two network families, and their text forms.

use vstd::prelude::*;
use crate::base58::{address_of_text, address_text, all_symbols, parse_address, text_of_address};
use crate::hex::{decode, decoded, encode_into, encoded, is_hex, lemma_decode_encoded};
use crate::network::NetworkFamily;

verus! {

/// The two bytes `0x` that open every hexadecimal identifier.
pub open spec fn hex_prefix() -> Seq<u8> {
    seq![0x30u8, 0x78u8]
}

/// `text` is `0x` followed by the hexadecimal spelling of exactly `n` bytes.
pub open spec fn is_prefixed_hex(text: Seq<u8>, n: nat) -> bool {
    &&& text.len() == 2 + 2 * n
    &&& text[0] == 0x30
    &&& text[1] == 0x78
    &&& is_hex(text.skip(2))
}

/// `0x` followed by the lower-case spelling of `bytes`.
pub open spec fn prefixed_hex(bytes: Seq<u8>) -> Seq<u8> {
    hex_prefix() + encoded(bytes)
}

/// The text `prefixed_hex(bytes)` is well formed and spells `bytes` again.
pub proof fn lemma_prefixed_hex(bytes: Seq<u8>)
    ensures
        is_prefixed_hex(prefixed_hex(bytes), bytes.len()),
        decoded(prefixed_hex(bytes).skip(2)) == bytes,
{
    lemma_decode_encoded(bytes);
    assert(prefixed_hex(bytes).skip(2) =~= encoded(bytes));
}

/// No text made of base58 symbols is `0x`-prefixed: the alphabet has no `0`.
pub proof fn lemma_symbols_not_prefixed(text: Seq<u8>, n: nat)
    requires
        all_symbols(text),
    ensures
        !is_prefixed_hex(text, n),
{
    if text.len() > 0 {
        assert(crate::base58::is_symbol(text[0]));
    }
}

/// Reads `0x` and `2 * n` hexadecimal digits.
pub fn parse_prefixed_hex(text: &[u8], n: usize) -> (r: Option<Vec<u8>>)
    ensures
        r.is_some() <==> is_prefixed_hex(text@, n as nat),
        r matches Some(bytes) ==> bytes@ == decoded(text@.skip(2)) && bytes@.len() == n,
{
    let length: usize = text.len();
    if n > (usize::MAX - 2) / 2 {
        proof {
            assert(2 + 2 * n > usize::MAX);
            assert(text@.len() == length);
        }
        return None;
    }
    if text.len() != 2 + 2 * n {
        return None;
    }
    if text[0] != 0x30 || text[1] != 0x78 {
        return None;
    }
    let digits = vstd::slice::slice_subrange(text, 2, text.len());
    proof {
        assert(digits@ =~= text@.skip(2));
    }
    decode(digits)
}

/// Writes `0x` and the lower-case spelling of `bytes`.
pub fn write_prefixed_hex(bytes: &[u8]) -> (r: Vec<u8>)
    ensures
        r@ == prefixed_hex(bytes@),
{
    let mut out: Vec<u8> = Vec::new();
    out.push(0x30);
    out.push(0x78);
    proof {
        assert(out@ =~= hex_prefix());
    }
    encode_into(bytes, &mut out);
    out
}

/// Whether two byte strings hold the same bytes.
pub fn same_bytes(a: &[u8], b: &[u8]) -> (r: bool)
    ensures
        r == (a@ == b@),
{
    if a.len() != b.len() {
        return false;
    }
    let mut i: usize = 0;
    while i < a.len()
        invariant
            a.len() == b.len(),
            0 <= i <= a.len(),
            forall|k: int| 0 <= k < i ==> a@[k] == b@[k],
        decreases a.len() - i,
    {
        if a[i] != b[i] {
            return false;
        }
        i = i + 1;
    }
    proof {
        assert(a@ =~= b@);
    }
    true
}

/// Copies the first 20 bytes of `bytes`.
pub(crate) fn array20(bytes: &[u8]) -> (r: [u8; 20])
    requires
        bytes@.len() == 20,
    ensures
        r@ == bytes@,
{
    let mut out = [0u8; 20];
    let mut i: usize = 0;
    while i < 20
        invariant
            bytes@.len() == 20,
            0 <= i <= 20,
            forall|k: int| 0 <= k < i ==> out@[k] == bytes@[k],
        decreases 20 - i,
    {
        out[i] = bytes[i];
        i = i + 1;
    }
    proof {
        assert(out@ =~= bytes@);
    }
    out
}

/// An account on an EVM chain: 20 bytes.
#[derive(Clone, Copy, Debug, PartialEq, Eq)]
pub struct EvmAddress {
    pub bytes: [u8; 20],
}

/// An account on Solana: the 32 bytes of an ed25519 public key.
#[derive(Clone, Copy, Debug, PartialEq, Eq)]
pub struct SolanaAddress {
    pub bytes: [u8; 32],
}

/// An address of either family. Which family it belongs to is part of the value.
#[derive(Clone, Copy, Debug, PartialEq, Eq)]
pub enum MixedAddress {
    Evm(EvmAddress),
    Solana(SolanaAddress),
}

impl View for EvmAddress {
    type V = Seq<u8>;

    open spec fn view(&self) -> Seq<u8> {
        self.bytes@
    }
}

impl View for SolanaAddress {
    type V = Seq<u8>;

    open spec fn view(&self) -> Seq<u8> {
        self.bytes@
    }
}

/// What an address is: its family and its bytes.
pub struct AddressModel {
    pub family: NetworkFamily,
    pub bytes: Seq<u8>,
}

impl View for MixedAddress {
    type V = AddressModel;

    open spec fn view(&self) -> AddressModel {
        match self {
            MixedAddress::Evm(a) => AddressModel { family: NetworkFamily::Evm, bytes: a@ },
            MixedAddress::Solana(a) => AddressModel { family: NetworkFamily::Solana, bytes: a@ },
        }
    }
}

impl MixedAddress {
    /// The address that `text` denotes: `0x` and 40 hexadecimal digits for an
    /// EVM account, else the base58 text of a Solana account.
    pub open spec fn parsed(text: Seq<u8>) -> Option<AddressModel> {
        if is_prefixed_hex(text, 20) {
            Some(AddressModel { family: NetworkFamily::Evm, bytes: decoded(text.skip(2)) })
        } else {
            match address_of_text(text) {
                Some(bytes) => Some(AddressModel { family: NetworkFamily::Solana, bytes }),
                None => None,
            }
        }
    }

    /// `text` is the text form of `self`.
    pub open spec fn is_text(self, text: Seq<u8>) -> bool {
        match self {
            MixedAddress::Evm(a) => text == prefixed_hex(a@),
            MixedAddress::Solana(a) => {
                &&& text == text_of_address(a@)
                &&& all_symbols(text)
                &&& address_of_text(text) == Some(a@)
            },
        }
    }

    /// The family that the address belongs to.
    pub fn family(&self) -> (f: NetworkFamily)
        ensures
            f == self@.family,
    {
        match self {
            MixedAddress::Evm(_) => NetworkFamily::Evm,
            MixedAddress::Solana(_) => NetworkFamily::Solana,
        }
    }

    /// Whether `self` and `other` are the same address of the same family.
    pub fn same_as(&self, other: &MixedAddress) -> (r: bool)
        ensures
            r == (self@ == other@),
    {
        match (self, other) {
            (MixedAddress::Evm(a), MixedAddress::Evm(b)) => same_bytes(
                a.bytes.as_slice(),
                b.bytes.as_slice(),
            ),
            (MixedAddress::Solana(a), MixedAddress::Solana(b)) => same_bytes(
                a.bytes.as_slice(),
                b.bytes.as_slice(),
            ),
            _ => false,
        }
    }

    /// Reads an address from its text form.
    pub fn parse(text: &[u8]) -> (r: Option<MixedAddress>)
        ensures
            match r {
                Some(a) => Self::parsed(text@) == Some(a@),
                None => Self::parsed(text@).is_none(),
            },
    {
        match parse_prefixed_hex(text, 20) {
            Some(bytes) => Some(MixedAddress::Evm(EvmAddress { bytes: array20(bytes.as_slice()) })),
            None => match parse_address(text) {
                Some(bytes) => Some(MixedAddress::Solana(SolanaAddress { bytes })),
                None => None,
            },
        }
    }

    /// The text form of the address.
    pub fn to_text(&self) -> (r: Vec<u8>)
        ensures
            self.is_text(r@),
    {
        match self {
            MixedAddress::Evm(a) => write_prefixed_hex(a.bytes.as_slice()),
            MixedAddress::Solana(a) => address_text(&a.bytes),
        }
    }
}

/// An address is read back from its own text form.
pub proof fn lemma_address_round_trip(address: MixedAddress, text: Seq<u8>)
    requires
        address.is_text(text),
    ensures
        MixedAddress::parsed(text) == Some(address@),
{
    match address {
        MixedAddress::Evm(a) => {
            lemma_prefixed_hex(a@);
        },
        MixedAddress::Solana(a) => {
            lemma_symbols_not_prefixed(text, 20);
        },
    }
}

} // verus!
