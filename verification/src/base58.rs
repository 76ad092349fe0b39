//! Base58 text of Solana addresses and signatures, and ed25519 verification.
//!
//! The encoding and the curve arithmetic are done by `solana_sdk`; the items
//! here give those results names that contracts can speak of.

use vstd::prelude::*;
use core::str::FromStr;

verus! {

/// What `solana_sdk::pubkey::Pubkey::from_str` makes of `text`: the 32 bytes
/// of the address, or `None` where it rejects the text or the text is not
/// UTF-8.
pub uninterp spec fn address_of_text(text: Seq<u8>) -> Option<Seq<u8>>;

/// What `solana_sdk::signature::Signature::from_str` makes of `text`: the 64
/// bytes of the signature, or `None` where it rejects the text or the text is
/// not UTF-8.
pub uninterp spec fn signature_of_text(text: Seq<u8>) -> Option<Seq<u8>>;

/// The text that `solana_sdk::pubkey::Pubkey` displays for an address of these bytes.
pub uninterp spec fn text_of_address(bytes: Seq<u8>) -> Seq<u8>;

/// The text that `solana_sdk::signature::Signature` displays for these bytes.
pub uninterp spec fn text_of_signature(bytes: Seq<u8>) -> Seq<u8>;

/// Whether `solana_sdk::signature::Signature::verify` accepts `signature` as
/// one made over `message` by the holder of `key`.
pub uninterp spec fn ed25519_accepts(signature: Seq<u8>, key: Seq<u8>, message: Seq<u8>) -> bool;

/// One character of the base58 alphabet: the digits and letters without
/// `0`, `O`, `I` and `l`.
pub open spec fn is_symbol(c: u8) -> bool {
    ||| 0x31 <= c <= 0x39
    ||| (0x41 <= c <= 0x5a && c != 0x49 && c != 0x4f)
    ||| (0x61 <= c <= 0x7a && c != 0x6c)
}

/// Every byte of `text` belongs to the base58 alphabet.
pub open spec fn all_symbols(text: Seq<u8>) -> bool {
    forall|i: int| 0 <= i < text.len() ==> is_symbol(#[trigger] text[i])
}

/// Calls `solana_sdk::pubkey::Pubkey::from_str` on `text` read as UTF-8.
/// Trusted: the outcome is the one named `address_of_text`; text that is not
/// UTF-8 is rejected like any other text that is not base58.
#[verifier::external_body]
pub(crate) fn parse_address(text: &[u8]) -> (r: Option<[u8; 32]>)
    ensures
        match r {
            Some(bytes) => address_of_text(text@) == Some(bytes@),
            None => address_of_text(text@).is_none(),
        },
{
    let s = core::str::from_utf8(text).ok()?;
    solana_sdk::pubkey::Pubkey::from_str(s).ok().map(|key| key.to_bytes())
}

/// Calls `solana_sdk::signature::Signature::from_str` on `text` read as UTF-8.
/// Trusted: the outcome is the one named `signature_of_text`; text that is
/// not UTF-8 is rejected like any other text that is not base58.
#[verifier::external_body]
pub(crate) fn parse_signature(text: &[u8]) -> (r: Option<[u8; 64]>)
    ensures
        match r {
            Some(bytes) => signature_of_text(text@) == Some(bytes@),
            None => signature_of_text(text@).is_none(),
        },
{
    let s = core::str::from_utf8(text).ok()?;
    solana_sdk::signature::Signature::from_str(s).ok().map(|sig| sig.into())
}

/// Calls `to_string` of `solana_sdk::pubkey::Pubkey`.
/// Trusted: the text is made of base58 symbols only, and `Pubkey::from_str`
/// reads it back as the same bytes.
#[verifier::external_body]
pub(crate) fn address_text(bytes: &[u8; 32]) -> (r: Vec<u8>)
    ensures
        r@ == text_of_address(bytes@),
        all_symbols(r@),
        address_of_text(r@) == Some(bytes@),
{
    solana_sdk::pubkey::Pubkey::new_from_array(*bytes).to_string().into_bytes()
}

/// Calls `to_string` of `solana_sdk::signature::Signature`.
/// Trusted: the text is made of base58 symbols only, and `Signature::from_str`
/// reads it back as the same bytes.
#[verifier::external_body]
pub(crate) fn signature_text(bytes: &[u8; 64]) -> (r: Vec<u8>)
    ensures
        r@ == text_of_signature(bytes@),
        all_symbols(r@),
        signature_of_text(r@) == Some(bytes@),
{
    solana_sdk::signature::Signature::from(*bytes).to_string().into_bytes()
}

/// Calls `solana_sdk::signature::Signature::verify`.
/// Trusted: the answer is the one named `ed25519_accepts`.
#[verifier::external_body]
pub(crate) fn ed25519_verify(signature: &[u8; 64], key: &[u8; 32], message: &[u8]) -> (r: bool)
    ensures
        r == ed25519_accepts(signature@, key@, message@),
{
    solana_sdk::signature::Signature::from(*signature).verify(key, message)
}

} // verus!
