//! The calls that an EVM settlement makes on the token contract: the
//! balance query and `transferWithAuthorization`, as ABI-encoded call data.

use vstd::prelude::*;
use crate::amount::{u64_word, write_u64_word, TokenAmount};
use crate::eip712::{address_word, push_address_word};

verus! {

/// The selector of `balanceOf(address)`.
pub open spec fn balance_of_selector() -> Seq<u8> {
    seq![0x70u8, 0xa0, 0x82, 0x31]
}

/// The selector of `transferWithAuthorization(address,address,uint256,
/// uint256,uint256,bytes32,uint8,bytes32,bytes32)`.
pub open spec fn transfer_selector() -> Seq<u8> {
    seq![0xe3u8, 0xee, 0x16, 0x0e]
}

/// The call data of `balanceOf(account)`.
pub open spec fn balance_of_call(account: Seq<u8>) -> Seq<u8> {
    balance_of_selector() + address_word(account)
}

/// The call data of `transferWithAuthorization` for an authorization and
/// its 65-byte signature: `r`, then `s`, then the recovery byte `v`.
pub open spec fn transfer_call(
    from: Seq<u8>,
    to: Seq<u8>,
    value: TokenAmount,
    valid_after: u64,
    valid_before: u64,
    nonce: Seq<u8>,
    signature: Seq<u8>,
) -> Seq<u8> {
    transfer_selector() + address_word(from) + address_word(to) + value.word() + u64_word(
        valid_after,
    ) + u64_word(valid_before) + nonce + u64_word(signature[64] as u64) + signature.subrange(0, 32)
        + signature.subrange(32, 64)
}

/// Builds the call data of `balanceOf(account)`: 36 bytes.
pub fn build_balance_of_call(account: &[u8; 20]) -> (r: Vec<u8>)
    ensures
        r@ == balance_of_call(account@),
        r@.len() == 36,
{
    let mut out: Vec<u8> = Vec::new();
    out.push(0x70);
    out.push(0xa0);
    out.push(0x82);
    out.push(0x31);
    proof {
        assert(out@ =~= balance_of_selector());
    }
    push_address_word(account, &mut out);
    out
}

/// Builds the call data of `transferWithAuthorization`: 292 bytes.
pub fn build_transfer_call(
    from: &[u8; 20],
    to: &[u8; 20],
    value: &TokenAmount,
    valid_after: u64,
    valid_before: u64,
    nonce: &[u8; 32],
    signature: &[u8; 65],
) -> (r: Vec<u8>)
    ensures
        r@ == transfer_call(
            from@,
            to@,
            *value,
            valid_after,
            valid_before,
            nonce@,
            signature@,
        ),
        r@.len() == 292,
{
    let mut out: Vec<u8> = Vec::new();
    out.push(0xe3);
    out.push(0xee);
    out.push(0x16);
    out.push(0x0e);
    proof {
        assert(out@ =~= transfer_selector());
    }
    push_address_word(from, &mut out);
    push_address_word(to, &mut out);
    value.write_word(&mut out);
    write_u64_word(valid_after, &mut out);
    write_u64_word(valid_before, &mut out);
    out.extend_from_slice(nonce.as_slice());
    write_u64_word(signature[64] as u64, &mut out);
    let r_part = vstd::slice::slice_subrange(signature.as_slice(), 0, 32);
    out.extend_from_slice(r_part);
    let s_part = vstd::slice::slice_subrange(signature.as_slice(), 32, 64);
    out.extend_from_slice(s_part);
    proof {
        assert(out@ =~= transfer_call(
            from@,
            to@,
            *value,
            valid_after,
            valid_before,
            nonce@,
            signature@,
        ));
    }
    out
}

} // verus!
