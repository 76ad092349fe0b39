//! What holds of the decision engine on every input.

use vstd::prelude::*;
use crate::chain::{signature_fault, SignatureFault};
use crate::error::{outward_of, ErrorModel, FacilitatorLocalError, ReasonModel, ResponseModel, VerifyResponse};
use crate::facilitator::{
    answers, authorization_fault, local_fault, protocol_fault, verdict, FundsModel,
};
use crate::payment::{within_window, PaymentPayload, PaymentRequirements};
use crate::settlement::passes;

verus! {

/// The negative response with `reason` for `payer`.
pub open spec fn refusal(payer: Option<crate::address::AddressModel>, reason: ReasonModel) -> Option<
    ResponseModel,
> {
    Some(ResponseModel { is_valid: false, payer, invalid_reason: Some(reason) })
}

/// A payload for another network than the required one is answered as
/// invalid with the reason `InvalidNetwork`, whatever else it holds. The one
/// exception is a payload that also names another scheme, on a network that
/// is served: the schemes are compared first.
pub proof fn law_network_mismatch(
    supported: bool,
    payload: PaymentPayload,
    requirements: PaymentRequirements,
    signature: Option<SignatureFault>,
    now: Option<u64>,
    funds: FundsModel,
)
    requires
        payload.network != requirements.network,
        !(supported && payload.scheme@ != requirements.scheme@),
    ensures
        verdict(supported, payload, requirements, signature, now, funds) matches Err(e)
            && outward_of(e) == refusal(Some(payload.payer()), ReasonModel::InvalidNetwork),
{
}

/// A signature that is well formed but not the payer's never verifies, at
/// any time and whatever the chain says, and no settlement of it ever
/// reaches submission. Where the protocol fields agree, the answer is
/// invalid with the reason under which the outside hears of signatures.
pub proof fn law_rejected_signature(
    supported: bool,
    payload: PaymentPayload,
    requirements: PaymentRequirements,
    now: Option<u64>,
    funds: FundsModel,
)
    requires
        signature_fault(payload, requirements) == Some(SignatureFault::Rejected),
    ensures
        verdict(
            supported,
            payload,
            requirements,
            signature_fault(payload, requirements),
            now,
            funds,
        ).is_err(),
        local_fault(
            supported,
            payload,
            requirements,
            signature_fault(payload, requirements),
            now,
        ).is_some(),
        forall|t: u64| !passes(payload, requirements, t),
        protocol_fault(supported, payload, requirements).is_none() ==> {
            &&& verdict(
                supported,
                payload,
                requirements,
                signature_fault(payload, requirements),
                now,
                funds,
            ) == Err::<crate::address::AddressModel, ErrorModel>(
                ErrorModel::InvalidSignature(payload.payer()),
            )
            &&& outward_of(ErrorModel::InvalidSignature(payload.payer())) == refusal(
                Some(payload.payer()),
                ReasonModel::InvalidScheme,
            )
        },
{
}

/// Verification is a function of its inputs: two answers to the same
/// payload, requirements, time and state of the chain are the same answer.
pub proof fn law_verify_idempotent(
    first: Result<VerifyResponse, FacilitatorLocalError>,
    second: Result<VerifyResponse, FacilitatorLocalError>,
    supported: bool,
    payload: PaymentPayload,
    requirements: PaymentRequirements,
    now: Option<u64>,
    funds: FundsModel,
)
    requires
        answers(
            first,
            verdict(
                supported,
                payload,
                requirements,
                signature_fault(payload, requirements),
                now,
                funds,
            ),
        ),
        answers(
            second,
            verdict(
                supported,
                payload,
                requirements,
                signature_fault(payload, requirements),
                now,
                funds,
            ),
        ),
    ensures
        match (first, second) {
            (Ok(a), Ok(b)) => a@ == b@,
            (Err(a), Err(b)) => a@ == b@,
            _ => false,
        },
{
}

/// Where the protocol fields agree and the signature stands, the time
/// decides alone whether the window is the next thing to fail: an
/// authorization is in time from `valid_after` to `valid_before`, both
/// included, and one second beyond either end it is not.
pub proof fn law_timing_boundary(
    payload: PaymentPayload,
    requirements: PaymentRequirements,
    now: u64,
)
    ensures
        authorization_fault(payload, requirements, None, Some(now)) == Some(
            ErrorModel::InvalidTiming(
                payload.payer(),
                payload.authorization.valid_after,
                now,
                payload.authorization.valid_before,
            ),
        ) <==> !within_window(
            payload.authorization.valid_after,
            payload.authorization.valid_before,
            now,
        ),
        payload.authorization.valid_after <= now && payload.authorization.valid_before == now
            ==> within_window(
            payload.authorization.valid_after,
            payload.authorization.valid_before,
            now,
        ),
        payload.authorization.valid_before + 1 == now ==> !within_window(
            payload.authorization.valid_after,
            payload.authorization.valid_before,
            now,
        ),
        payload.authorization.valid_after == now && now <= payload.authorization.valid_before
            ==> within_window(
            payload.authorization.valid_after,
            payload.authorization.valid_before,
            now,
        ),
        payload.authorization.valid_after == now + 1 ==> !within_window(
            payload.authorization.valid_after,
            payload.authorization.valid_before,
            now,
        ),
{
}

/// Where the signature stands and the time is in the window, the value
/// decides alone: an authorization for exactly the required amount passes,
/// and one for a single unit less fails with `InsufficientValue`.
pub proof fn law_value_boundary(
    payload: PaymentPayload,
    requirements: PaymentRequirements,
    now: u64,
)
    requires
        within_window(payload.authorization.valid_after, payload.authorization.valid_before, now),
    ensures
        payload.authorization.value == requirements.amount ==> authorization_fault(
            payload,
            requirements,
            None,
            Some(now),
        ).is_none(),
        payload.authorization.value.value() + 1 == requirements.amount.value()
            ==> authorization_fault(payload, requirements, None, Some(now)) == Some(
            ErrorModel::InsufficientValue(payload.payer()),
        ),
        authorization_fault(payload, requirements, None, Some(now)).is_none()
            <==> payload.authorization.value.value() >= requirements.amount.value(),
{
}

} // verus!
