//! The chain adapter's cryptographic half: whether the payer signed the
//! authorization, by the rules of the network's family.

use vstd::prelude::*;
use vstd::utf8::encode_utf8;
use crate::address::{AddressModel, MixedAddress};
use crate::amount::{u64_bytes, write_u64_bytes};
use crate::base58::{ed25519_accepts, ed25519_verify};
use crate::eip712::{
    compute_domain_separator, compute_signing_digest, compute_transfer_hash, domain_separator,
    is_signed_by, signed_by, signing_digest, transfer_hash, TransferFields,
};
use crate::network::{usdc_address, NetworkFamily, USDCDeployment};
use crate::payment::{PaymentPayload, PaymentRequirements};

verus! {

/// Why a signature check did not succeed.
#[derive(Clone, Copy, Debug, PartialEq, Eq)]
pub enum SignatureError {
    /// This address does not belong to the family of the required network.
    InvalidAddress(MixedAddress),
    /// The signature does not have the length of the family's signatures.
    WrongLength,
    /// The requirements name no signing domain, and the token is not one
    /// whose domain is known.
    UnknownDomain,
    /// The signature was not made by the payer over this authorization.
    Rejected,
}

/// What a signature error is.
pub enum SignatureFault {
    InvalidAddress(AddressModel),
    WrongLength,
    UnknownDomain,
    Rejected,
}

impl View for SignatureError {
    type V = SignatureFault;

    open spec fn view(&self) -> SignatureFault {
        match self {
            SignatureError::InvalidAddress(a) => SignatureFault::InvalidAddress(a@),
            SignatureError::WrongLength => SignatureFault::WrongLength,
            SignatureError::UnknownDomain => SignatureFault::UnknownDomain,
            SignatureError::Rejected => SignatureFault::Rejected,
        }
    }
}

/// The first of payer, receiver and token whose address is not of the
/// required network's family.
pub open spec fn misplaced_address(
    payload: PaymentPayload,
    requirements: PaymentRequirements,
) -> Option<AddressModel> {
    let family = requirements.network.family_of();
    if payload.authorization.from@.family != family {
        Some(payload.authorization.from@)
    } else if payload.authorization.to@.family != family {
        Some(payload.authorization.to@)
    } else if requirements.asset@.family != family {
        Some(requirements.asset@)
    } else {
        None
    }
}

/// The name and version of the signing domain, as UTF-8 bytes: those that
/// the requirements name, else those of USDC where the token is the known
/// USDC of the network.
pub open spec fn domain_of(requirements: PaymentRequirements) -> Option<(Seq<u8>, Seq<u8>)> {
    match requirements.eip712 {
        Some(domain) => Some((encode_utf8(domain.name@), encode_utf8(domain.version@))),
        None => if requirements.asset@ == usdc_address(requirements.network) {
            Some((encode_utf8("USDC"@), encode_utf8("2"@)))
        } else {
            None
        },
    }
}

/// The EIP-712 digest that the payer of an EVM authorization signs.
pub open spec fn evm_digest(
    payload: PaymentPayload,
    requirements: PaymentRequirements,
    name: Seq<u8>,
    version: Seq<u8>,
) -> Seq<u8> {
    signing_digest(
        domain_separator(
            name,
            version,
            requirements.network.chain_id_of().unwrap(),
            requirements.asset@.bytes,
        ),
        transfer_hash(
            TransferFields {
                from: payload.authorization.from@.bytes,
                to: payload.authorization.to@.bytes,
                value: payload.authorization.value,
                valid_after: payload.authorization.valid_after,
                valid_before: payload.authorization.valid_before,
                nonce: payload.authorization.nonce@,
            },
        ),
    )
}

/// The message that the payer of a Solana authorization signs: payer,
/// receiver, mint, the amount as a 32-byte word, the two ends of the window
/// as 8 bytes each, and the nonce; 176 bytes in all.
pub open spec fn solana_message(payload: PaymentPayload, requirements: PaymentRequirements) -> Seq<
    u8,
> {
    payload.authorization.from@.bytes + payload.authorization.to@.bytes + requirements.asset@.bytes
        + payload.authorization.value.word() + u64_bytes(payload.authorization.valid_after)
        + u64_bytes(payload.authorization.valid_before) + payload.authorization.nonce@
}

/// Why the signature of `payload` does not stand under `requirements`, or
/// `None` where it stands.
pub open spec fn signature_fault(
    payload: PaymentPayload,
    requirements: PaymentRequirements,
) -> Option<SignatureFault> {
    match misplaced_address(payload, requirements) {
        Some(address) => Some(SignatureFault::InvalidAddress(address)),
        None => match requirements.network.family_of() {
            NetworkFamily::Evm => if payload.signature@.len() != 65 {
                Some(SignatureFault::WrongLength)
            } else {
                match domain_of(requirements) {
                    None => Some(SignatureFault::UnknownDomain),
                    Some((name, version)) => if is_signed_by(
                        payload.signature@,
                        evm_digest(payload, requirements, name, version),
                        payload.authorization.from@.bytes,
                    ) {
                        None
                    } else {
                        Some(SignatureFault::Rejected)
                    },
                }
            },
            NetworkFamily::Solana => if payload.signature@.len() != 64 {
                Some(SignatureFault::WrongLength)
            } else if ed25519_accepts(
                payload.signature@,
                payload.authorization.from@.bytes,
                solana_message(payload, requirements),
            ) {
                None
            } else {
                Some(SignatureFault::Rejected)
            },
        },
    }
}

/// The fault that the outcome of a check reports, if it reports one.
pub open spec fn fault_of(outcome: Result<(), SignatureError>) -> Option<SignatureFault> {
    match outcome {
        Ok(_) => None,
        Err(e) => Some(e@),
    }
}

fn array64(bytes: &[u8]) -> (r: [u8; 64])
    requires
        bytes@.len() == 64,
    ensures
        r@ == bytes@,
{
    let mut out = [0u8; 64];
    let mut i: usize = 0;
    while i < 64
        invariant
            bytes@.len() == 64,
            0 <= i <= 64,
            forall|k: int| 0 <= k < i ==> out@[k] == bytes@[k],
        decreases 64 - i,
    {
        out[i] = bytes[i];
        i = i + 1;
    }
    proof {
        assert(out@ =~= bytes@);
    }
    out
}

/// Builds the message that the payer of a Solana authorization signs.
fn build_solana_message(
    payload: &PaymentPayload,
    requirements: &PaymentRequirements,
    from: &[u8; 32],
    to: &[u8; 32],
    mint: &[u8; 32],
) -> (r: Vec<u8>)
    requires
        from@ == payload.authorization.from@.bytes,
        to@ == payload.authorization.to@.bytes,
        mint@ == requirements.asset@.bytes,
    ensures
        r@ == solana_message(*payload, *requirements),
{
    let mut out: Vec<u8> = Vec::new();
    out.extend_from_slice(from.as_slice());
    out.extend_from_slice(to.as_slice());
    out.extend_from_slice(mint.as_slice());
    payload.authorization.value.write_word(&mut out);
    write_u64_bytes(payload.authorization.valid_after, &mut out);
    write_u64_bytes(payload.authorization.valid_before, &mut out);
    out.extend_from_slice(payload.authorization.nonce.as_slice());
    proof {
        assert(out@ =~= solana_message(*payload, *requirements));
    }
    out
}

fn verify_evm(
    payload: &PaymentPayload,
    requirements: &PaymentRequirements,
    from: &[u8; 20],
    to: &[u8; 20],
    contract: &[u8; 20],
) -> (r: Result<(), SignatureError>)
    requires
        requirements.network.family_of() == NetworkFamily::Evm,
        misplaced_address(*payload, *requirements).is_none(),
        from@ == payload.authorization.from@.bytes,
        to@ == payload.authorization.to@.bytes,
        contract@ == requirements.asset@.bytes,
    ensures
        fault_of(r) == signature_fault(*payload, *requirements),
{
    if payload.signature.len() != 65 {
        return Err(SignatureError::WrongLength);
    }
    let chain_id = match requirements.network.chain_id() {
        Some(id) => id,
        None => {
            return Err(SignatureError::UnknownDomain);
        },
    };
    let separator = match &requirements.eip712 {
        Some(domain) => compute_domain_separator(
            domain.name.as_str().as_bytes(),
            domain.version.as_str().as_bytes(),
            chain_id,
            contract,
        ),
        None => {
            let known = USDCDeployment::by_network(requirements.network);
            if !known.0.asset.address.same_as(&requirements.asset) {
                return Err(SignatureError::UnknownDomain);
            }
            match &known.0.eip712 {
                Some(domain) => compute_domain_separator(
                    domain.name.as_str().as_bytes(),
                    domain.version.as_str().as_bytes(),
                    chain_id,
                    contract,
                ),
                None => {
                    return Err(SignatureError::UnknownDomain);
                },
            }
        },
    };
    let struct_hash = compute_transfer_hash(
        from,
        to,
        &payload.authorization.value,
        payload.authorization.valid_after,
        payload.authorization.valid_before,
        &payload.authorization.nonce,
    );
    let digest = compute_signing_digest(&separator, &struct_hash);
    if signed_by(payload.signature.as_slice(), &digest, from) {
        Ok(())
    } else {
        Err(SignatureError::Rejected)
    }
}

fn verify_solana(
    payload: &PaymentPayload,
    requirements: &PaymentRequirements,
    from: &[u8; 32],
    to: &[u8; 32],
    mint: &[u8; 32],
) -> (r: Result<(), SignatureError>)
    requires
        requirements.network.family_of() == NetworkFamily::Solana,
        misplaced_address(*payload, *requirements).is_none(),
        from@ == payload.authorization.from@.bytes,
        to@ == payload.authorization.to@.bytes,
        mint@ == requirements.asset@.bytes,
    ensures
        fault_of(r) == signature_fault(*payload, *requirements),
{
    if payload.signature.len() != 64 {
        return Err(SignatureError::WrongLength);
    }
    let signature = array64(payload.signature.as_slice());
    let message = build_solana_message(payload, requirements, from, to, mint);
    if ed25519_verify(&signature, from, message.as_slice()) {
        Ok(())
    } else {
        Err(SignatureError::Rejected)
    }
}

/// Checks that the payer signed the authorization: on an EVM network, that
/// the EIP-712 digest of `transferWithAuthorization` recovers to the payer;
/// on Solana, that the ed25519 signature over the authorization message is
/// the payer's.
pub fn verify_signature(payload: &PaymentPayload, requirements: &PaymentRequirements) -> (r: Result<
    (),
    SignatureError,
>)
    ensures
        fault_of(r) == signature_fault(*payload, *requirements),
{
    let family = requirements.network.family();
    match (&payload.authorization.from, &payload.authorization.to, &requirements.asset) {
        (MixedAddress::Evm(from), MixedAddress::Evm(to), MixedAddress::Evm(contract)) => {
            match family {
                NetworkFamily::Evm => verify_evm(
                    payload,
                    requirements,
                    &from.bytes,
                    &to.bytes,
                    &contract.bytes,
                ),
                NetworkFamily::Solana => Err(
                    SignatureError::InvalidAddress(payload.authorization.from),
                ),
            }
        },
        (MixedAddress::Solana(from), MixedAddress::Solana(to), MixedAddress::Solana(mint)) => {
            match family {
                NetworkFamily::Solana => verify_solana(
                    payload,
                    requirements,
                    &from.bytes,
                    &to.bytes,
                    &mint.bytes,
                ),
                NetworkFamily::Evm => Err(
                    SignatureError::InvalidAddress(payload.authorization.from),
                ),
            }
        },
        _ => {
            if payload.authorization.from.family() != family {
                Err(SignatureError::InvalidAddress(payload.authorization.from))
            } else if payload.authorization.to.family() != family {
                Err(SignatureError::InvalidAddress(payload.authorization.to))
            } else {
                Err(SignatureError::InvalidAddress(requirements.asset))
            }
        },
    }
}

} // verus!
