//! Settlement: the same checks as verification, then the transfer.
//!
//! A settlement passes through two waiting states. Each is a value that only
//! the step before it can make, so a transfer is submitted only for a payment
//! that passed every check.

use vstd::prelude::*;
use crate::address::{AddressModel, MixedAddress};
use crate::chain::signature_fault;
use crate::error::{
    outward_of, payer_model, ErrorModel, FacilitatorErrorReason, FacilitatorLocalError,
    OutwardSignal, ReasonModel,
};
use crate::facilitator::{
    funds_fault, local_fault, stands_for, Facilitator, FundsQuery, FundsReport,
};
use crate::network::Network;
use crate::payment::{PaymentPayload, PaymentRequirements};
use crate::transaction::{HashModel, TransactionHash};

verus! {

/// What the chain said of a submitted transfer.
#[derive(Clone, Debug, PartialEq, Eq)]
pub enum SubmitReport {
    /// The network accepted the transaction.
    Accepted(TransactionHash),
    /// Submission failed; the identifier is there where the transaction had
    /// already left for the network.
    Failed(String, Option<TransactionHash>),
}

/// The answer to a settlement request.
#[derive(Clone, Debug, PartialEq, Eq)]
pub struct SettleResponse {
    pub success: bool,
    pub transaction: Option<TransactionHash>,
    pub network: Network,
    pub payer: Option<MixedAddress>,
    pub error_reason: Option<FacilitatorErrorReason>,
}

/// What a settlement response is.
pub struct SettleModel {
    pub success: bool,
    pub transaction: Option<HashModel>,
    pub network: Network,
    pub payer: Option<AddressModel>,
    pub error_reason: Option<ReasonModel>,
}

/// The view of an optional transaction identifier.
pub open spec fn hash_model(hash: Option<TransactionHash>) -> Option<HashModel> {
    match hash {
        Some(h) => Some(h@),
        None => None,
    }
}

impl View for SettleResponse {
    type V = SettleModel;

    open spec fn view(&self) -> SettleModel {
        SettleModel {
            success: self.success,
            transaction: hash_model(self.transaction),
            network: self.network,
            payer: payer_model(self.payer),
            error_reason: match self.error_reason {
                Some(reason) => Some(reason@),
                None => None,
            },
        }
    }
}

impl SettleResponse {
    /// A success names its transaction and no reason; a failure names its
    /// reason. A transaction that is named lives on the family of the network.
    pub open spec fn wf(self) -> bool {
        &&& self.success ==> self.transaction.is_some()
        &&& self.error_reason.is_some() <==> !self.success
        &&& self.transaction matches Some(h) ==> h@.family == self.network.family_of()
    }

    /// The negative settlement response that stands for `error` on `network`,
    /// by the rules that map errors to negative verification responses;
    /// `None` where the request is rejected outright.
    pub open spec fn of_error(error: ErrorModel, network: Network) -> Option<SettleModel> {
        match outward_of(error) {
            Some(response) => Some(
                SettleModel {
                    success: false,
                    transaction: None,
                    network,
                    payer: response.payer,
                    error_reason: response.invalid_reason,
                },
            ),
            None => None,
        }
    }

    /// Maps an error of the engine to the negative settlement response that
    /// reports it, or to `None` where the request is rejected outright.
    pub fn from_error(error: FacilitatorLocalError, network: Network) -> (r: Option<SettleResponse>)
        ensures
            match r {
                Some(response) => response.wf() && Self::of_error(error@, network) == Some(
                    response@,
                ),
                None => Self::of_error(error@, network).is_none(),
            },
    {
        match error.outward() {
            OutwardSignal::Verdict(response) => Some(
                SettleResponse {
                    success: false,
                    transaction: None,
                    network,
                    payer: response.payer,
                    error_reason: response.invalid_reason,
                },
            ),
            OutwardSignal::Rejected => None,
        }
    }
}

/// The text of the error for an identifier of the wrong family.
pub open spec fn foreign_hash_text() -> Seq<char> {
    "the chain answered with an identifier of another family"@
}

/// What a submission report makes of a settlement on `network` for `payer`.
pub open spec fn settlement_of(report: SubmitReport, network: Network, payer: AddressModel) -> Result<
    SettleModel,
    ErrorModel,
> {
    match report {
        SubmitReport::Accepted(hash) => if hash@.family == network.family_of() {
            Ok(
                SettleModel {
                    success: true,
                    transaction: Some(hash@),
                    network,
                    payer: Some(payer),
                    error_reason: None,
                },
            )
        } else {
            Err(ErrorModel::ContractCall(foreign_hash_text()))
        },
        SubmitReport::Failed(text, Some(hash)) => if hash@.family == network.family_of() {
            Ok(
                SettleModel {
                    success: false,
                    transaction: Some(hash@),
                    network,
                    payer: Some(payer),
                    error_reason: Some(ReasonModel::FreeForm(text@)),
                },
            )
        } else {
            Err(ErrorModel::ContractCall(text@))
        },
        SubmitReport::Failed(text, None) => Err(ErrorModel::ContractCall(text@)),
    }
}

/// A settlement that waits for the chain's answer on the payer's balance.
pub struct PendingFunds {
    payload: PaymentPayload,
    requirements: PaymentRequirements,
    checked_at: u64,
}

/// A settlement that passed every check and waits for its transfer to be
/// submitted.
pub struct PendingSubmission {
    payload: PaymentPayload,
    requirements: PaymentRequirements,
    checked_at: u64,
}

/// Every local check of verification passes for `payload` under
/// `requirements` at the time `checked_at`, on a network that is served.
pub open spec fn passes(
    payload: PaymentPayload,
    requirements: PaymentRequirements,
    checked_at: u64,
) -> bool {
    local_fault(
        true,
        payload,
        requirements,
        signature_fault(payload, requirements),
        Some(checked_at),
    ).is_none()
}

impl PendingFunds {
    #[verifier::type_invariant]
    spec fn inv(self) -> bool {
        passes(self.payload, self.requirements, self.checked_at)
    }

    /// The payment that is being settled.
    pub closed spec fn payload(self) -> PaymentPayload {
        self.payload
    }

    /// The requirements that it is settled against.
    pub closed spec fn requirements(self) -> PaymentRequirements {
        self.requirements
    }

    /// The time at which the payment was checked.
    pub closed spec fn checked_at(self) -> u64 {
        self.checked_at
    }

    /// What to ask the chain. A settlement that waits here has passed every
    /// local check.
    pub fn query(&self) -> (r: FundsQuery)
        ensures
            r.is_for(self.payload(), self.requirements()),
            passes(self.payload(), self.requirements(), self.checked_at()),
    {
        proof {
            use_type_invariant(self);
        }
        FundsQuery {
            network: self.requirements.network,
            payer: self.payload.authorization.from,
            asset: self.requirements.asset,
            amount: self.requirements.amount,
        }
    }

    /// Takes the chain's answer on the payer's balance. Only a sufficient
    /// balance leads on to submission.
    pub fn on_funds(self, funds: FundsReport) -> (r: Result<PendingSubmission, FacilitatorLocalError>)
        ensures
            stands_for(r, funds_fault(self.payload(), funds@)),
            r matches Ok(next) ==> next.payload() == self.payload() && next.requirements()
                == self.requirements() && next.checked_at() == self.checked_at(),
    {
        proof {
            use_type_invariant(&self);
        }
        let payer = self.payload.authorization.from;
        match funds {
            FundsReport::Sufficient => Ok(
                PendingSubmission {
                    payload: self.payload,
                    requirements: self.requirements,
                    checked_at: self.checked_at,
                },
            ),
            FundsReport::Insufficient => Err(FacilitatorLocalError::InsufficientFunds(payer)),
            FundsReport::Unavailable(text) => Err(FacilitatorLocalError::ContractCall(text)),
        }
    }
}

impl PendingSubmission {
    #[verifier::type_invariant]
    spec fn inv(self) -> bool {
        passes(self.payload, self.requirements, self.checked_at)
    }

    /// The payment that is being settled.
    pub closed spec fn payload(self) -> PaymentPayload {
        self.payload
    }

    /// The requirements that it is settled against.
    pub closed spec fn requirements(self) -> PaymentRequirements {
        self.requirements
    }

    /// The time at which the payment was checked.
    pub closed spec fn checked_at(self) -> u64 {
        self.checked_at
    }

    /// The network on which the transfer is to be submitted.
    pub fn network(&self) -> (r: Network)
        ensures
            r == self.requirements().network,
    {
        self.requirements.network
    }

    /// The authorization to submit, with its signature. Whatever is handed
    /// out here has passed every local check.
    pub fn order(&self) -> (r: &PaymentPayload)
        ensures
            *r == self.payload(),
            passes(self.payload(), self.requirements(), self.checked_at()),
    {
        proof {
            use_type_invariant(self);
        }
        &self.payload
    }

    /// Takes the outcome of the submission and closes the settlement. The
    /// answer is given as soon as the network has accepted the transaction;
    /// a failure after the transaction had left still names it.
    pub fn on_submission(self, report: SubmitReport) -> (r: Result<
        SettleResponse,
        FacilitatorLocalError,
    >)
        ensures
            match r {
                Ok(response) => response.wf() && settlement_of(
                    report,
                    self.requirements().network,
                    self.payload().payer(),
                ) == Ok::<SettleModel, ErrorModel>(response@),
                Err(e) => settlement_of(
                    report,
                    self.requirements().network,
                    self.payload().payer(),
                ) == Err::<SettleModel, ErrorModel>(e@),
            },
    {
        let network = self.requirements.network;
        let payer = self.payload.authorization.from;
        match report {
            SubmitReport::Accepted(hash) => {
                if hash.family() == network.family() {
                    Ok(
                        SettleResponse {
                            success: true,
                            transaction: Some(hash),
                            network,
                            payer: Some(payer),
                            error_reason: None,
                        },
                    )
                } else {
                    Err(
                        FacilitatorLocalError::ContractCall(
                            "the chain answered with an identifier of another family".to_owned(),
                        ),
                    )
                }
            },
            SubmitReport::Failed(text, Some(hash)) => {
                if hash.family() == network.family() {
                    Ok(
                        SettleResponse {
                            success: false,
                            transaction: Some(hash),
                            network,
                            payer: Some(payer),
                            error_reason: Some(FacilitatorErrorReason::FreeForm(text)),
                        },
                    )
                } else {
                    Err(FacilitatorLocalError::ContractCall(text))
                }
            },
            SubmitReport::Failed(text, None) => Err(FacilitatorLocalError::ContractCall(text)),
        }
    }
}

impl<C> Facilitator<C> {
    /// Opens a settlement: applies every local check of verification again,
    /// in the same order, and goes on only where all of them pass.
    pub fn begin_settlement(
        &self,
        payload: PaymentPayload,
        requirements: PaymentRequirements,
        now: Option<u64>,
    ) -> (r: Result<PendingFunds, FacilitatorLocalError>)
        ensures
            stands_for(
                r,
                local_fault(
                    self.clients().holds(requirements.network),
                    payload,
                    requirements,
                    signature_fault(payload, requirements),
                    now,
                ),
            ),
            r matches Ok(pending) ==> pending.payload() == payload && pending.requirements()
                == requirements && now == Some(pending.checked_at()),
    {
        match (self.check_local(&payload, &requirements, now), now) {
            (Err(e), _) => Err(e),
            (Ok(_), None) => Err(FacilitatorLocalError::ClockError),
            (Ok(_), Some(checked_at)) => Ok(PendingFunds { payload, requirements, checked_at }),
        }
    }
}

} // verus!
