//! EIP-712 typed data for `transferWithAuthorization`, and the recovery of
//! the account that signed it.
//!
//! Keccak-256 and the secp256k1 arithmetic are done by `alloy`; the framing of
//! the hashed bytes is this module's own and is proved against its definition.

use vstd::prelude::*;
use crate::amount::{u64_word, write_u64_word, TokenAmount};

verus! {

/// The Keccak-256 digest of `data`, as `alloy::primitives::keccak256` computes it.
pub uninterp spec fn keccak256_of(data: Seq<u8>) -> Seq<u8>;

/// The account that `alloy::primitives::Signature` recovers from the 65-byte
/// raw `signature` over `digest`, or `None` where the signature is not 65
/// bytes with a recovery byte it knows, or no key can be recovered.
pub uninterp spec fn recovered_signer(signature: Seq<u8>, digest: Seq<u8>) -> Option<Seq<u8>>;

/// Calls `alloy::primitives::keccak256`.
/// Trusted: the 32 bytes are the digest named `keccak256_of`.
#[verifier::external_body]
pub(crate) fn keccak256(data: &[u8]) -> (r: [u8; 32])
    ensures
        r@ == keccak256_of(data@),
{
    alloy::primitives::keccak256(data).0
}

/// Calls `alloy::primitives::Signature::from_raw` and then
/// `recover_address_from_prehash` on what it gives.
/// Trusted: the outcome is the one named `recovered_signer`; a failure of
/// either call is `None`.
#[verifier::external_body]
pub(crate) fn recover_signer(signature: &[u8], digest: &[u8; 32]) -> (r: Option<[u8; 20]>)
    ensures
        match r {
            Some(account) => recovered_signer(signature@, digest@) == Some(account@),
            None => recovered_signer(signature@, digest@).is_none(),
        },
{
    let parsed = alloy::primitives::Signature::from_raw(signature).ok()?;
    let prehash = alloy::primitives::B256::from(*digest);
    parsed.recover_address_from_prehash(&prehash).ok().map(|account| account.into_array())
}

/// Keccak-256 of
/// `EIP712Domain(string name,string version,uint256 chainId,address verifyingContract)`.
pub open spec fn domain_type_hash() -> Seq<u8> {
    seq![
        0x8bu8, 0x73, 0xc3, 0xc6, 0x9b, 0xb8, 0xfe, 0x3d, 0x51, 0x2e, 0xcc,
        0x4c, 0xf7, 0x59, 0xcc, 0x79, 0x23, 0x9f, 0x7b, 0x17, 0x9b, 0x0f,
        0xfa, 0xca, 0xa9, 0xa7, 0x5d, 0x52, 0x2b, 0x39, 0x40, 0x0f,
    ]
}

/// Keccak-256 of `TransferWithAuthorization(address from,address to,uint256 value,uint256
/// validAfter,uint256 validBefore,bytes32 nonce)`.
pub open spec fn transfer_type_hash() -> Seq<u8> {
    seq![
        0x7cu8, 0x7c, 0x6c, 0xdb, 0x67, 0xa1, 0x87, 0x43, 0xf4, 0x9e, 0xc6,
        0xfa, 0x9b, 0x35, 0xf5, 0x0d, 0x52, 0xed, 0x05, 0xcb, 0xed, 0x4c,
        0xc5, 0x92, 0xe1, 0x3b, 0x44, 0x50, 0x1c, 0x1a, 0x22, 0x67,
    ]
}

/// The 32-byte word of a 20-byte account: twelve zero bytes, then the account.
pub open spec fn address_word(account: Seq<u8>) -> Seq<u8> {
    Seq::new(12, |i: int| 0u8) + account
}

/// The separator of the signing domain of a token contract.
pub open spec fn domain_separator(
    name: Seq<u8>,
    version: Seq<u8>,
    chain_id: u64,
    contract: Seq<u8>,
) -> Seq<u8> {
    keccak256_of(
        domain_type_hash() + keccak256_of(name) + keccak256_of(version) + u64_word(chain_id)
            + address_word(contract),
    )
}

/// The fields of a transfer authorization as EIP-712 reads them.
pub struct TransferFields {
    pub from: Seq<u8>,
    pub to: Seq<u8>,
    pub value: TokenAmount,
    pub valid_after: u64,
    pub valid_before: u64,
    pub nonce: Seq<u8>,
}

/// The struct hash of a transfer authorization.
pub open spec fn transfer_hash(fields: TransferFields) -> Seq<u8> {
    keccak256_of(
        transfer_type_hash() + address_word(fields.from) + address_word(fields.to)
            + fields.value.word() + u64_word(fields.valid_after) + u64_word(fields.valid_before)
            + fields.nonce,
    )
}

/// The digest that the payer signs: `0x19 0x01`, the domain separator, the struct hash.
pub open spec fn signing_digest(separator: Seq<u8>, struct_hash: Seq<u8>) -> Seq<u8> {
    keccak256_of(seq![0x19u8, 0x01u8] + separator + struct_hash)
}

fn push_domain_type_hash(out: &mut Vec<u8>)
    ensures
        final(out)@ == old(out)@ + domain_type_hash(),
{
    let word: [u8; 32] = [
        0x8b, 0x73, 0xc3, 0xc6, 0x9b, 0xb8, 0xfe, 0x3d, 0x51, 0x2e, 0xcc,
        0x4c, 0xf7, 0x59, 0xcc, 0x79, 0x23, 0x9f, 0x7b, 0x17, 0x9b, 0x0f,
        0xfa, 0xca, 0xa9, 0xa7, 0x5d, 0x52, 0x2b, 0x39, 0x40, 0x0f,
    ];
    proof {
        assert(word@ =~= domain_type_hash());
    }
    out.extend_from_slice(word.as_slice());
}

fn push_transfer_type_hash(out: &mut Vec<u8>)
    ensures
        final(out)@ == old(out)@ + transfer_type_hash(),
{
    let word: [u8; 32] = [
        0x7c, 0x7c, 0x6c, 0xdb, 0x67, 0xa1, 0x87, 0x43, 0xf4, 0x9e, 0xc6,
        0xfa, 0x9b, 0x35, 0xf5, 0x0d, 0x52, 0xed, 0x05, 0xcb, 0xed, 0x4c,
        0xc5, 0x92, 0xe1, 0x3b, 0x44, 0x50, 0x1c, 0x1a, 0x22, 0x67,
    ];
    proof {
        assert(word@ =~= transfer_type_hash());
    }
    out.extend_from_slice(word.as_slice());
}

pub(crate) fn push_address_word(account: &[u8; 20], out: &mut Vec<u8>)
    ensures
        final(out)@ == old(out)@ + address_word(account@),
{
    let ghost start = out@;
    let mut i: usize = 0;
    while i < 12
        invariant
            0 <= i <= 12,
            out@ == start + Seq::new(i as nat, |k: int| 0u8),
        decreases 12 - i,
    {
        out.push(0u8);
        proof {
            assert(out@ =~= start + Seq::new((i + 1) as nat, |k: int| 0u8));
        }
        i = i + 1;
    }
    out.extend_from_slice(account.as_slice());
    proof {
        assert(out@ =~= start + address_word(account@));
    }
}

/// Computes the separator of the signing domain of the token contract
/// `contract` on the chain `chain_id`, with the contract's EIP-712 name and
/// version given as UTF-8 bytes.
pub fn compute_domain_separator(
    name: &[u8],
    version: &[u8],
    chain_id: u64,
    contract: &[u8; 20],
) -> (r: [u8; 32])
    ensures
        r@ == domain_separator(name@, version@, chain_id, contract@),
{
    let name_hash = keccak256(name);
    let version_hash = keccak256(version);
    let mut buffer: Vec<u8> = Vec::new();
    push_domain_type_hash(&mut buffer);
    buffer.extend_from_slice(name_hash.as_slice());
    buffer.extend_from_slice(version_hash.as_slice());
    write_u64_word(chain_id, &mut buffer);
    push_address_word(contract, &mut buffer);
    proof {
        assert(buffer@ =~= domain_type_hash() + keccak256_of(name@) + keccak256_of(version@)
            + u64_word(chain_id) + address_word(contract@));
    }
    keccak256(buffer.as_slice())
}

/// Computes the struct hash of a transfer authorization.
pub fn compute_transfer_hash(
    from: &[u8; 20],
    to: &[u8; 20],
    value: &TokenAmount,
    valid_after: u64,
    valid_before: u64,
    nonce: &[u8; 32],
) -> (r: [u8; 32])
    ensures
        r@ == transfer_hash(
            TransferFields {
                from: from@,
                to: to@,
                value: *value,
                valid_after,
                valid_before,
                nonce: nonce@,
            },
        ),
{
    let mut buffer: Vec<u8> = Vec::new();
    push_transfer_type_hash(&mut buffer);
    push_address_word(from, &mut buffer);
    push_address_word(to, &mut buffer);
    value.write_word(&mut buffer);
    write_u64_word(valid_after, &mut buffer);
    write_u64_word(valid_before, &mut buffer);
    buffer.extend_from_slice(nonce.as_slice());
    proof {
        assert(buffer@ =~= transfer_type_hash() + address_word(from@) + address_word(to@)
            + value.word() + u64_word(valid_after) + u64_word(valid_before) + nonce@);
    }
    keccak256(buffer.as_slice())
}

/// Computes the digest that the payer signs.
pub fn compute_signing_digest(separator: &[u8; 32], struct_hash: &[u8; 32]) -> (r: [u8; 32])
    ensures
        r@ == signing_digest(separator@, struct_hash@),
{
    let mut buffer: Vec<u8> = Vec::new();
    buffer.push(0x19);
    buffer.push(0x01);
    buffer.extend_from_slice(separator.as_slice());
    buffer.extend_from_slice(struct_hash.as_slice());
    proof {
        assert(buffer@ =~= seq![0x19u8, 0x01u8] + separator@ + struct_hash@);
    }
    keccak256(buffer.as_slice())
}

/// `account` is the one that made `signature` over `digest`.
pub open spec fn is_signed_by(signature: Seq<u8>, digest: Seq<u8>, account: Seq<u8>) -> bool {
    recovered_signer(signature, digest) == Some(account)
}

/// Whether `signature` over `digest` was made by `account`.
pub fn signed_by(signature: &[u8], digest: &[u8; 32], account: &[u8; 20]) -> (r: bool)
    ensures
        r == is_signed_by(signature@, digest@, account@),
{
    matches_signer(recover_signer(signature, digest), account)
}

/// Whether the recovered account, if any, is `account`.
pub fn matches_signer(recovered: Option<[u8; 20]>, account: &[u8; 20]) -> (r: bool)
    ensures
        r == (recovered matches Some(found) && found@ == account@),
{
    match recovered {
        Some(found) => crate::address::same_bytes(found.as_slice(), account.as_slice()),
        None => false,
    }
}

} // verus!
