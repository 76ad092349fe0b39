//! The outcomes of verification: the errors of the decision engine, the
//! response that a resource server receives, and the mapping between them.

use vstd::prelude::*;
use crate::address::{AddressModel, MixedAddress};
use crate::network::Network;

verus! {

/// The reason that a negative response gives to the outside.
#[derive(Clone, Debug, PartialEq, Eq)]
pub enum FacilitatorErrorReason {
    InsufficientFunds,
    InvalidScheme,
    InvalidNetwork,
    FreeForm(String),
}

/// What a reason is, with its text as a sequence of characters.
pub enum ReasonModel {
    InsufficientFunds,
    InvalidScheme,
    InvalidNetwork,
    FreeForm(Seq<char>),
}

impl View for FacilitatorErrorReason {
    type V = ReasonModel;

    open spec fn view(&self) -> ReasonModel {
        match self {
            FacilitatorErrorReason::InsufficientFunds => ReasonModel::InsufficientFunds,
            FacilitatorErrorReason::InvalidScheme => ReasonModel::InvalidScheme,
            FacilitatorErrorReason::InvalidNetwork => ReasonModel::InvalidNetwork,
            FacilitatorErrorReason::FreeForm(text) => ReasonModel::FreeForm(text@),
        }
    }
}

/// The view of an optional address.
pub open spec fn payer_model(payer: Option<MixedAddress>) -> Option<AddressModel> {
    match payer {
        Some(a) => Some(a@),
        None => None,
    }
}

/// The answer to a verification request.
#[derive(Clone, Debug, PartialEq, Eq)]
pub struct VerifyResponse {
    pub is_valid: bool,
    pub payer: Option<MixedAddress>,
    pub invalid_reason: Option<FacilitatorErrorReason>,
}

/// What a verification response is.
pub struct ResponseModel {
    pub is_valid: bool,
    pub payer: Option<AddressModel>,
    pub invalid_reason: Option<ReasonModel>,
}

impl View for VerifyResponse {
    type V = ResponseModel;

    open spec fn view(&self) -> ResponseModel {
        ResponseModel {
            is_valid: self.is_valid,
            payer: payer_model(self.payer),
            invalid_reason: match self.invalid_reason {
                Some(reason) => Some(reason@),
                None => None,
            },
        }
    }
}

impl VerifyResponse {
    /// A response carries a reason exactly where it is negative.
    pub open spec fn wf(self) -> bool {
        self.invalid_reason.is_some() <==> !self.is_valid
    }

    /// The positive response for `payer`.
    pub fn valid(payer: MixedAddress) -> (r: VerifyResponse)
        ensures
            r.wf(),
            r@ == (ResponseModel { is_valid: true, payer: Some(payer@), invalid_reason: None }),
    {
        VerifyResponse { is_valid: true, payer: Some(payer), invalid_reason: None }
    }

    /// The negative response with `reason`, echoing the payer where known.
    pub fn invalid(payer: Option<MixedAddress>, reason: FacilitatorErrorReason) -> (r:
        VerifyResponse)
        ensures
            r.wf(),
            r@ == (ResponseModel {
                is_valid: false,
                payer: payer_model(payer),
                invalid_reason: Some(reason@),
            }),
    {
        VerifyResponse { is_valid: false, payer, invalid_reason: Some(reason) }
    }
}

/// The negative response whose reason is `InvalidScheme`.
pub fn invalid_schema(payer: Option<MixedAddress>) -> (r: VerifyResponse)
    ensures
        r.wf(),
        r@ == (ResponseModel {
            is_valid: false,
            payer: payer_model(payer),
            invalid_reason: Some(ReasonModel::InvalidScheme),
        }),
{
    VerifyResponse::invalid(payer, FacilitatorErrorReason::InvalidScheme)
}

/// Why the engine did not accept a payment.
#[derive(Clone, Debug, PartialEq, Eq)]
pub enum FacilitatorLocalError {
    /// The required network has no live client. Carries the payer.
    UnsupportedNetwork(Option<MixedAddress>),
    /// The payload names another network than the requirements: payer,
    /// required network, offered network.
    NetworkMismatch(Option<MixedAddress>, Network, Network),
    /// The payload names another scheme than the requirements: payer,
    /// required scheme, offered scheme.
    SchemeMismatch(Option<MixedAddress>, String, String),
    /// The authorization pays someone else: payer, required receiver,
    /// authorized receiver.
    ReceiverMismatch(MixedAddress, MixedAddress, MixedAddress),
    /// The signature is not the payer's.
    InvalidSignature(MixedAddress),
    /// The current time, the third field, is outside the window from the
    /// second to the fourth.
    InvalidTiming(MixedAddress, u64, u64, u64),
    /// The authorized value is below the required amount.
    InsufficientValue(MixedAddress),
    /// The payer's balance on chain is below the required amount.
    InsufficientFunds(MixedAddress),
    /// A call to the chain failed.
    ContractCall(String),
    /// An address is malformed: it is this address, which does not belong
    /// to the family of the network that it is used on, or it is text that
    /// is no address of any family.
    InvalidAddress(Option<MixedAddress>),
    /// The clock could not be read.
    ClockError,
    /// A structured field could not be decoded.
    DecodingError(String),
}

/// What an error is, with texts as sequences of characters and addresses
/// as their models.
pub enum ErrorModel {
    UnsupportedNetwork(Option<AddressModel>),
    NetworkMismatch(Option<AddressModel>, Network, Network),
    SchemeMismatch(Option<AddressModel>, Seq<char>, Seq<char>),
    ReceiverMismatch(AddressModel, AddressModel, AddressModel),
    InvalidSignature(AddressModel),
    InvalidTiming(AddressModel, u64, u64, u64),
    InsufficientValue(AddressModel),
    InsufficientFunds(AddressModel),
    ContractCall(Seq<char>),
    InvalidAddress(Option<AddressModel>),
    ClockError,
    DecodingError(Seq<char>),
}

impl View for FacilitatorLocalError {
    type V = ErrorModel;

    open spec fn view(&self) -> ErrorModel {
        match self {
            FacilitatorLocalError::UnsupportedNetwork(p) => ErrorModel::UnsupportedNetwork(
                payer_model(*p),
            ),
            FacilitatorLocalError::NetworkMismatch(p, want, got) => ErrorModel::NetworkMismatch(
                payer_model(*p),
                *want,
                *got,
            ),
            FacilitatorLocalError::SchemeMismatch(p, want, got) => ErrorModel::SchemeMismatch(
                payer_model(*p),
                want@,
                got@,
            ),
            FacilitatorLocalError::ReceiverMismatch(p, want, got) => ErrorModel::ReceiverMismatch(
                p@,
                want@,
                got@,
            ),
            FacilitatorLocalError::InvalidSignature(p) => ErrorModel::InvalidSignature(p@),
            FacilitatorLocalError::InvalidTiming(p, after, now, before) => ErrorModel::InvalidTiming(
                p@,
                *after,
                *now,
                *before,
            ),
            FacilitatorLocalError::InsufficientValue(p) => ErrorModel::InsufficientValue(p@),
            FacilitatorLocalError::InsufficientFunds(p) => ErrorModel::InsufficientFunds(p@),
            FacilitatorLocalError::ContractCall(text) => ErrorModel::ContractCall(text@),
            FacilitatorLocalError::InvalidAddress(a) => ErrorModel::InvalidAddress(
                payer_model(*a),
            ),
            FacilitatorLocalError::ClockError => ErrorModel::ClockError,
            FacilitatorLocalError::DecodingError(text) => ErrorModel::DecodingError(text@),
        }
    }
}

/// What the outside is told of an error.
#[derive(Clone, Debug, PartialEq, Eq)]
pub enum OutwardSignal {
    /// A negative verification result, answered as a normal response.
    Verdict(VerifyResponse),
    /// The request is rejected outright as malformed or unprocessable.
    Rejected,
}

/// What the outside is told of each error: the negative response, or `None`
/// where the request is rejected outright.
pub open spec fn outward_of(error: ErrorModel) -> Option<ResponseModel> {
    match error {
        ErrorModel::SchemeMismatch(payer, _, _) => Some(
            ResponseModel {
                is_valid: false,
                payer,
                invalid_reason: Some(ReasonModel::InvalidScheme),
            },
        ),
        ErrorModel::ReceiverMismatch(payer, _, _)
        | ErrorModel::InvalidSignature(payer)
        | ErrorModel::InvalidTiming(payer, _, _, _)
        | ErrorModel::InsufficientValue(payer) => Some(
            ResponseModel {
                is_valid: false,
                payer: Some(payer),
                invalid_reason: Some(ReasonModel::InvalidScheme),
            },
        ),
        ErrorModel::NetworkMismatch(payer, _, _) | ErrorModel::UnsupportedNetwork(payer) => Some(
            ResponseModel {
                is_valid: false,
                payer,
                invalid_reason: Some(ReasonModel::InvalidNetwork),
            },
        ),
        ErrorModel::DecodingError(text) => Some(
            ResponseModel {
                is_valid: false,
                payer: None,
                invalid_reason: Some(ReasonModel::FreeForm(text)),
            },
        ),
        ErrorModel::InsufficientFunds(payer) => Some(
            ResponseModel {
                is_valid: false,
                payer: Some(payer),
                invalid_reason: Some(ReasonModel::InsufficientFunds),
            },
        ),
        ErrorModel::ContractCall(_) | ErrorModel::InvalidAddress(_) | ErrorModel::ClockError => None,
    }
}

impl OutwardSignal {
    /// The response that the signal carries, if it carries one.
    pub open spec fn response(self) -> Option<ResponseModel> {
        match self {
            OutwardSignal::Verdict(r) => Some(r@),
            OutwardSignal::Rejected => None,
        }
    }

    /// A carried response is well formed.
    pub open spec fn wf(self) -> bool {
        self matches OutwardSignal::Verdict(r) ==> r.wf()
    }
}

impl FacilitatorLocalError {
    /// The payer that the error names, where it names one.
    pub open spec fn payer_of(error: ErrorModel) -> Option<AddressModel> {
        match error {
            ErrorModel::UnsupportedNetwork(p)
            | ErrorModel::NetworkMismatch(p, _, _)
            | ErrorModel::SchemeMismatch(p, _, _) => p,
            ErrorModel::ReceiverMismatch(p, _, _)
            | ErrorModel::InvalidSignature(p)
            | ErrorModel::InvalidTiming(p, _, _, _)
            | ErrorModel::InsufficientValue(p)
            | ErrorModel::InsufficientFunds(p) => Some(p),
            ErrorModel::ContractCall(_)
            | ErrorModel::InvalidAddress(_)
            | ErrorModel::ClockError
            | ErrorModel::DecodingError(_) => None,
        }
    }

    /// Maps the error to what the outside is told: business outcomes become
    /// negative responses, faults reject the request.
    pub fn outward(self) -> (r: OutwardSignal)
        ensures
            r.wf(),
            r.response() == outward_of(self@),
    {
        match self {
            FacilitatorLocalError::SchemeMismatch(payer, _, _) => OutwardSignal::Verdict(
                invalid_schema(payer),
            ),
            FacilitatorLocalError::ReceiverMismatch(payer, _, _) => OutwardSignal::Verdict(
                invalid_schema(Some(payer)),
            ),
            FacilitatorLocalError::InvalidSignature(payer) => OutwardSignal::Verdict(
                invalid_schema(Some(payer)),
            ),
            FacilitatorLocalError::InvalidTiming(payer, _, _, _) => OutwardSignal::Verdict(
                invalid_schema(Some(payer)),
            ),
            FacilitatorLocalError::InsufficientValue(payer) => OutwardSignal::Verdict(
                invalid_schema(Some(payer)),
            ),
            FacilitatorLocalError::NetworkMismatch(payer, _, _) => OutwardSignal::Verdict(
                VerifyResponse::invalid(payer, FacilitatorErrorReason::InvalidNetwork),
            ),
            FacilitatorLocalError::UnsupportedNetwork(payer) => OutwardSignal::Verdict(
                VerifyResponse::invalid(payer, FacilitatorErrorReason::InvalidNetwork),
            ),
            FacilitatorLocalError::ContractCall(_) => OutwardSignal::Rejected,
            FacilitatorLocalError::InvalidAddress(_) => OutwardSignal::Rejected,
            FacilitatorLocalError::ClockError => OutwardSignal::Rejected,
            FacilitatorLocalError::DecodingError(reason) => OutwardSignal::Verdict(
                VerifyResponse::invalid(None, FacilitatorErrorReason::FreeForm(reason)),
            ),
            FacilitatorLocalError::InsufficientFunds(payer) => OutwardSignal::Verdict(
                VerifyResponse::invalid(Some(payer), FacilitatorErrorReason::InsufficientFunds),
            ),
        }
    }
}

} // verus!
