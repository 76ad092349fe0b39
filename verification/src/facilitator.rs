//! The decision engine: the ordered checks that accept or reject a payment,
//! and the steps of a settlement.
//!
//! The engine never talks to a chain itself. Where a decision needs
//! something from outside (the time, the payer's balance, the outcome of a
//! submission), the caller obtains it and hands it in.

use vstd::prelude::*;
use crate::address::{AddressModel, MixedAddress};
use crate::amount::TokenAmount;
use crate::chain::{fault_of, signature_fault, verify_signature, SignatureError, SignatureFault};
use crate::error::{ErrorModel, FacilitatorLocalError, ResponseModel, VerifyResponse};
use crate::network::Network;
use crate::payment::{exact_scheme, in_window, within_window, PaymentPayload, PaymentRequirements};
use crate::provider_cache::ProviderCache;
use crate::transaction::TransactionHash;

verus! {

/// What the chain said of the payer's balance.
#[derive(Clone, Debug, PartialEq, Eq)]
pub enum FundsReport {
    /// The balance covers the required amount.
    Sufficient,
    /// The balance is below the required amount.
    Insufficient,
    /// The chain could not be asked; the text says why.
    Unavailable(String),
}

/// What a funds report is.
pub enum FundsModel {
    Sufficient,
    Insufficient,
    Unavailable(Seq<char>),
}

impl View for FundsReport {
    type V = FundsModel;

    open spec fn view(&self) -> FundsModel {
        match self {
            FundsReport::Sufficient => FundsModel::Sufficient,
            FundsReport::Insufficient => FundsModel::Insufficient,
            FundsReport::Unavailable(text) => FundsModel::Unavailable(text@),
        }
    }
}

/// What a balance on chain makes of a required amount.
pub fn funds_report(balance: &TokenAmount, required: &TokenAmount) -> (r: FundsReport)
    ensures
        r@ == if balance.value() >= required.value() {
            FundsModel::Sufficient
        } else {
            FundsModel::Insufficient
        },
{
    if balance.covers(required) {
        FundsReport::Sufficient
    } else {
        FundsReport::Insufficient
    }
}

/// What has to be asked of the chain before a payment is accepted.
#[derive(Clone, Copy, Debug, PartialEq, Eq)]
pub struct FundsQuery {
    pub network: Network,
    pub payer: MixedAddress,
    pub asset: MixedAddress,
    pub amount: TokenAmount,
}

impl FundsQuery {
    /// The query asks whether the payer of `payload` holds the required
    /// amount of the required token.
    pub open spec fn is_for(self, payload: PaymentPayload, requirements: PaymentRequirements) -> bool {
        &&& self.network == requirements.network
        &&& self.payer@ == payload.payer()
        &&& self.asset@ == requirements.asset@
        &&& self.amount == requirements.amount
    }
}

/// The text of the decoding error for a signature of the wrong length.
pub open spec fn wrong_length_text() -> Seq<char> {
    "signature has the wrong length"@
}

/// The text of the decoding error for a token without a known signing domain.
pub open spec fn unknown_domain_text() -> Seq<char> {
    "no signing domain is known for the token"@
}

/// The first of the protocol checks that fails: the network is served, the
/// schemes agree, the networks agree, the receiver is the one required.
pub open spec fn protocol_fault(
    supported: bool,
    payload: PaymentPayload,
    requirements: PaymentRequirements,
) -> Option<ErrorModel> {
    let payer = payload.payer();
    if !supported {
        Some(ErrorModel::UnsupportedNetwork(Some(payer)))
    } else if payload.scheme@ != requirements.scheme@ {
        Some(ErrorModel::SchemeMismatch(Some(payer), requirements.scheme@, payload.scheme@))
    } else if payload.network != requirements.network {
        Some(ErrorModel::NetworkMismatch(Some(payer), requirements.network, payload.network))
    } else if payload.authorization.to@ != requirements.pay_to@ {
        Some(
            ErrorModel::ReceiverMismatch(payer, requirements.pay_to@, payload.authorization.to@),
        )
    } else {
        None
    }
}

/// The first of the checks on the authorization that fails, given what the
/// signature check found and what the clock read: the signature stands, the
/// time lies in the window, the value covers the required amount.
pub open spec fn authorization_fault(
    payload: PaymentPayload,
    requirements: PaymentRequirements,
    signature: Option<SignatureFault>,
    now: Option<u64>,
) -> Option<ErrorModel> {
    let payer = payload.payer();
    match signature {
        Some(SignatureFault::InvalidAddress(address)) => Some(
            ErrorModel::InvalidAddress(Some(address)),
        ),
        Some(SignatureFault::WrongLength) => Some(ErrorModel::DecodingError(wrong_length_text())),
        Some(SignatureFault::UnknownDomain) => Some(
            ErrorModel::DecodingError(unknown_domain_text()),
        ),
        Some(SignatureFault::Rejected) => Some(ErrorModel::InvalidSignature(payer)),
        None => match now {
            None => Some(ErrorModel::ClockError),
            Some(t) => if !within_window(
                payload.authorization.valid_after,
                payload.authorization.valid_before,
                t,
            ) {
                Some(
                    ErrorModel::InvalidTiming(
                        payer,
                        payload.authorization.valid_after,
                        t,
                        payload.authorization.valid_before,
                    ),
                )
            } else if !(payload.authorization.value.value() >= requirements.amount.value()) {
                Some(ErrorModel::InsufficientValue(payer))
            } else {
                None
            },
        },
    }
}

/// The first check that fails before the chain is asked, in the fixed order
/// of the protocol; `None` where all of them pass.
pub open spec fn local_fault(
    supported: bool,
    payload: PaymentPayload,
    requirements: PaymentRequirements,
    signature: Option<SignatureFault>,
    now: Option<u64>,
) -> Option<ErrorModel> {
    match protocol_fault(supported, payload, requirements) {
        Some(e) => Some(e),
        None => authorization_fault(payload, requirements, signature, now),
    }
}

/// What the chain's answer makes of a payment that passed the local checks.
pub open spec fn funds_fault(payload: PaymentPayload, funds: FundsModel) -> Option<ErrorModel> {
    match funds {
        FundsModel::Sufficient => None,
        FundsModel::Insufficient => Some(ErrorModel::InsufficientFunds(payload.payer())),
        FundsModel::Unavailable(text) => Some(ErrorModel::ContractCall(text)),
    }
}

/// The outcome of verification: the payer, or the first check that failed.
pub open spec fn verdict(
    supported: bool,
    payload: PaymentPayload,
    requirements: PaymentRequirements,
    signature: Option<SignatureFault>,
    now: Option<u64>,
    funds: FundsModel,
) -> Result<AddressModel, ErrorModel> {
    match local_fault(supported, payload, requirements, signature, now) {
        Some(e) => Err(e),
        None => match funds_fault(payload, funds) {
            Some(e) => Err(e),
            None => Ok(payload.payer()),
        },
    }
}

/// An exec outcome stands for `fault`.
pub open spec fn stands_for<T>(outcome: Result<T, FacilitatorLocalError>, fault: Option<
    ErrorModel,
>) -> bool {
    match outcome {
        Ok(_) => fault.is_none(),
        Err(e) => fault == Some(e@),
    }
}

/// A verification result stands for `expected`.
pub open spec fn answers(
    result: Result<VerifyResponse, FacilitatorLocalError>,
    expected: Result<AddressModel, ErrorModel>,
) -> bool {
    match result {
        Ok(response) => {
            &&& response.wf()
            &&& expected matches Ok(payer)
            &&& response@ == (ResponseModel {
                is_valid: true,
                payer: Some(payer),
                invalid_reason: None,
            })
        },
        Err(e) => expected == Err::<AddressModel, ErrorModel>(e@),
    }
}

/// One capability of the facilitator: a scheme on a network.
#[derive(Clone, Debug, PartialEq, Eq)]
pub struct SupportedPaymentKind {
    pub x402_version: u8,
    pub scheme: String,
    pub network: Network,
}

/// The decision engine over a cache of chain clients of type `C`.
pub struct Facilitator<C> {
    cache: ProviderCache<C>,
}

/// Checks the protocol fields: the network is served, the schemes agree,
/// the networks agree, and the receiver is the one required.
pub fn check_protocol(
    supported: bool,
    payload: &PaymentPayload,
    requirements: &PaymentRequirements,
) -> (r: Result<(), FacilitatorLocalError>)
    ensures
        stands_for(r, protocol_fault(supported, *payload, *requirements)),
{
    let payer = payload.authorization.from;
    if !supported {
        return Err(FacilitatorLocalError::UnsupportedNetwork(Some(payer)));
    }
    if payload.scheme != requirements.scheme {
        return Err(
            FacilitatorLocalError::SchemeMismatch(
                Some(payer),
                requirements.scheme.clone(),
                payload.scheme.clone(),
            ),
        );
    }
    if payload.network != requirements.network {
        return Err(
            FacilitatorLocalError::NetworkMismatch(
                Some(payer),
                requirements.network,
                payload.network,
            ),
        );
    }
    if !payload.authorization.to.same_as(&requirements.pay_to) {
        return Err(
            FacilitatorLocalError::ReceiverMismatch(
                payer,
                requirements.pay_to,
                payload.authorization.to,
            ),
        );
    }
    Ok(())
}

/// Checks the authorization itself, given the outcome of the signature
/// check and the reading of the clock (`None` where it could not be read).
pub fn check_authorization(
    payload: &PaymentPayload,
    requirements: &PaymentRequirements,
    signature: Result<(), SignatureError>,
    now: Option<u64>,
) -> (r: Result<(), FacilitatorLocalError>)
    ensures
        stands_for(r, authorization_fault(*payload, *requirements, fault_of(signature), now)),
{
    let payer = payload.authorization.from;
    match signature {
        Err(SignatureError::InvalidAddress(address)) => {
            return Err(FacilitatorLocalError::InvalidAddress(Some(address)));
        },
        Err(SignatureError::WrongLength) => {
            return Err(
                FacilitatorLocalError::DecodingError("signature has the wrong length".to_owned()),
            );
        },
        Err(SignatureError::UnknownDomain) => {
            return Err(
                FacilitatorLocalError::DecodingError(
                    "no signing domain is known for the token".to_owned(),
                ),
            );
        },
        Err(SignatureError::Rejected) => {
            return Err(FacilitatorLocalError::InvalidSignature(payer));
        },
        Ok(_) => {},
    }
    let t = match now {
        Some(t) => t,
        None => {
            return Err(FacilitatorLocalError::ClockError);
        },
    };
    if !in_window(&payload.authorization, t) {
        return Err(
            FacilitatorLocalError::InvalidTiming(
                payer,
                payload.authorization.valid_after,
                t,
                payload.authorization.valid_before,
            ),
        );
    }
    if !payload.authorization.value.covers(&requirements.amount) {
        return Err(FacilitatorLocalError::InsufficientValue(payer));
    }
    Ok(())
}

/// Turns the chain's answer on the payer's balance into the final outcome
/// of a payment that passed every local check.
pub fn conclude(payload: &PaymentPayload, funds: FundsReport) -> (r: Result<
    VerifyResponse,
    FacilitatorLocalError,
>)
    ensures
        answers(
            r,
            match funds_fault(*payload, funds@) {
                Some(e) => Err(e),
                None => Ok(payload.payer()),
            },
        ),
{
    let payer = payload.authorization.from;
    match funds {
        FundsReport::Sufficient => Ok(VerifyResponse::valid(payer)),
        FundsReport::Insufficient => Err(FacilitatorLocalError::InsufficientFunds(payer)),
        FundsReport::Unavailable(text) => Err(FacilitatorLocalError::ContractCall(text)),
    }
}

impl<C> Facilitator<C> {
    /// The cache that the engine dispatches over.
    pub closed spec fn clients(self) -> ProviderCache<C> {
        self.cache
    }

    /// An engine over `cache`.
    pub fn new(cache: ProviderCache<C>) -> (r: Facilitator<C>)
        ensures
            r.clients() == cache,
    {
        Facilitator { cache }
    }

    /// The cache that the engine dispatches over.
    pub fn cache(&self) -> (r: &ProviderCache<C>)
        ensures
            *r == self.clients(),
    {
        &self.cache
    }

    /// Runs every check that needs no chain, with the outcome of the
    /// signature check given. On success, says what to ask the chain.
    pub fn assess(
        &self,
        payload: &PaymentPayload,
        requirements: &PaymentRequirements,
        signature: Result<(), SignatureError>,
        now: Option<u64>,
    ) -> (r: Result<FundsQuery, FacilitatorLocalError>)
        ensures
            stands_for(
                r,
                local_fault(
                    self.clients().holds(requirements.network),
                    *payload,
                    *requirements,
                    fault_of(signature),
                    now,
                ),
            ),
            r matches Ok(query) ==> query.is_for(*payload, *requirements),
    {
        let supported = self.cache.supports(requirements.network);
        match check_protocol(supported, payload, requirements) {
            Err(e) => {
                return Err(e);
            },
            Ok(_) => {},
        }
        match check_authorization(payload, requirements, signature, now) {
            Err(e) => {
                return Err(e);
            },
            Ok(_) => {},
        }
        Ok(
            FundsQuery {
                network: requirements.network,
                payer: payload.authorization.from,
                asset: requirements.asset,
                amount: requirements.amount,
            },
        )
    }

    /// Runs every check that needs no chain, in the fixed order of the
    /// protocol; the signature is checked only once the protocol fields
    /// agree. On success, says what to ask the chain.
    pub fn check_local(
        &self,
        payload: &PaymentPayload,
        requirements: &PaymentRequirements,
        now: Option<u64>,
    ) -> (r: Result<FundsQuery, FacilitatorLocalError>)
        ensures
            stands_for(
                r,
                local_fault(
                    self.clients().holds(requirements.network),
                    *payload,
                    *requirements,
                    signature_fault(*payload, *requirements),
                    now,
                ),
            ),
            r matches Ok(query) ==> query.is_for(*payload, *requirements),
    {
        let supported = self.cache.supports(requirements.network);
        match check_protocol(supported, payload, requirements) {
            Err(e) => {
                return Err(e);
            },
            Ok(_) => {},
        }
        let signature = verify_signature(payload, requirements);
        match check_authorization(payload, requirements, signature, now) {
            Err(e) => {
                return Err(e);
            },
            Ok(_) => {},
        }
        Ok(
            FundsQuery {
                network: requirements.network,
                payer: payload.authorization.from,
                asset: requirements.asset,
                amount: requirements.amount,
            },
        )
    }

    /// The whole verification, given everything that the outside supplies:
    /// the reading of the clock and the chain's answer on the payer's
    /// balance. The answer is used only where every local check passes.
    pub fn verify_with(
        &self,
        payload: &PaymentPayload,
        requirements: &PaymentRequirements,
        now: Option<u64>,
        funds: FundsReport,
    ) -> (r: Result<VerifyResponse, FacilitatorLocalError>)
        ensures
            answers(
                r,
                verdict(
                    self.clients().holds(requirements.network),
                    *payload,
                    *requirements,
                    signature_fault(*payload, *requirements),
                    now,
                    funds@,
                ),
            ),
    {
        match self.check_local(payload, requirements, now) {
            Err(e) => Err(e),
            Ok(_) => conclude(payload, funds),
        }
    }

    /// The schemes that the facilitator implements, one entry for each
    /// network with a live client, in the registry's order.
    pub fn supported(&self) -> (r: Vec<SupportedPaymentKind>)
        ensures
            forall|n: Network|
                self.clients().holds(n) <==> exists|i: int|
                    0 <= i < r@.len() && (#[trigger] r@[i]).network == n,
            forall|i: int, j: int|
                0 <= i < j < r@.len() ==> r@[i].network.position() < r@[j].network.position(),
            forall|i: int|
                0 <= i < r@.len() ==> (#[trigger] r@[i]).scheme@ == exact_scheme()
                    && r@[i].x402_version == 1,
    {
        let networks = self.cache.supported_networks();
        let mut out: Vec<SupportedPaymentKind> = Vec::new();
        let mut k: usize = 0;
        while k < networks.len()
            invariant
                0 <= k <= networks@.len(),
                out@.len() == k,
                forall|i: int| 0 <= i < k ==> (#[trigger] out@[i]).network == networks@[i],
                forall|i: int|
                    0 <= i < k ==> (#[trigger] out@[i]).scheme@ == exact_scheme()
                        && out@[i].x402_version == 1,
            decreases networks@.len() - k,
        {
            out.push(
                SupportedPaymentKind {
                    x402_version: 1,
                    scheme: "exact".to_owned(),
                    network: networks[k],
                },
            );
            k = k + 1;
        }
        proof {
            assert forall|n: Network|
                self.clients().holds(n) <==> exists|i: int|
                    0 <= i < out@.len() && (#[trigger] out@[i]).network == n by {
                if self.clients().holds(n) {
                    assert(networks@.contains(n));
                    let i = choose|i: int| 0 <= i < networks@.len() && networks@[i] == n;
                    assert(out@[i].network == n);
                }
                if exists|i: int| 0 <= i < out@.len() && (#[trigger] out@[i]).network == n {
                    let i = choose|i: int| 0 <= i < out@.len() && (#[trigger] out@[i]).network == n;
                    assert(networks@[i] == n);
                    assert(networks@.contains(n));
                }
            }
        }
        out
    }

    /// The networks on which a transaction with this identifier can live:
    /// those with a live client whose family is the identifier's, in the
    /// registry's order.
    pub fn status_targets(&self, hash: &TransactionHash) -> (r: Vec<Network>)
        ensures
            forall|n: Network|
                r@.contains(n) <==> (self.clients().holds(n) && n.family_of() == hash@.family),
            forall|i: int, j: int|
                0 <= i < j < r@.len() ==> r@[i].position() < r@[j].position(),
    {
        let family = hash.family();
        let networks = self.cache.supported_networks();
        let mut out: Vec<Network> = Vec::new();
        let mut k: usize = 0;
        while k < networks.len()
            invariant
                0 <= k <= networks@.len(),
                family == hash@.family,
                forall|i: int, j: int|
                    0 <= i < j < networks@.len() ==> networks@[i].position()
                        < networks@[j].position(),
                forall|n: Network|
                    out@.contains(n) <==> (exists|i: int|
                        0 <= i < k && networks@[i] == n && n.family_of() == family),
                forall|i: int|
                    0 <= i < out@.len() ==> exists|j: int|
                        0 <= j < k && networks@[j] == #[trigger] out@[i],
                forall|i: int, j: int|
                    0 <= i < j < out@.len() ==> out@[i].position() < out@[j].position(),
            decreases networks@.len() - k,
        {
            let n = networks[k];
            let ghost before = out@;
            if n.family() == family {
                out.push(n);
                proof {
                    assert(out@[before.len() as int] == n);
                    assert forall|m: Network|
                        out@.contains(m) <==> (exists|i: int|
                            0 <= i < k + 1 && networks@[i] == m && m.family_of()
                                == family) by {
                        if out@.contains(m) {
                            let i = choose|i: int| 0 <= i < out@.len() && out@[i] == m;
                            if i < before.len() {
                                assert(before[i] == m);
                                assert(before.contains(m));
                                let j = choose|j: int|
                                    0 <= j < k && networks@[j] == m && m.family_of() == family;
                                assert(0 <= j < k + 1 && networks@[j] == m);
                            } else {
                                assert(networks@[k as int] == m);
                            }
                        }
                        if exists|i: int|
                            0 <= i < k + 1 && networks@[i] == m && m.family_of() == family {
                            let i = choose|i: int|
                                0 <= i < k + 1 && networks@[i] == m && m.family_of() == family;
                            if i < k {
                                assert(before.contains(m));
                                let j = choose|j: int| 0 <= j < before.len() && before[j] == m;
                                assert(out@[j] == m);
                            } else {
                                assert(out@[before.len() as int] == m);
                            }
                        }
                    }
                    assert forall|i: int| 0 <= i < out@.len() implies exists|j: int|
                        0 <= j < k + 1 && networks@[j] == #[trigger] out@[i] by {
                        if i < before.len() {
                            assert(before[i] == out@[i]);
                            let j = choose|j: int| 0 <= j < k && networks@[j] == before[i];
                            assert(0 <= j < k + 1 && networks@[j] == out@[i]);
                        } else {
                            assert(networks@[k as int] == out@[i]);
                        }
                    }
                    assert forall|i: int, j: int| 0 <= i < j < out@.len() implies out@[i].position()
                        < out@[j].position() by {
                        if j == before.len() {
                            assert(before[i] == out@[i]);
                            let w = choose|w: int| 0 <= w < k && networks@[w] == before[i];
                            assert(networks@[w].position() < networks@[k as int].position());
                        } else {
                            assert(before[i] == out@[i] && before[j] == out@[j]);
                        }
                    }
                }
            } else {
                proof {
                    assert forall|m: Network|
                        out@.contains(m) <==> (exists|i: int|
                            0 <= i < k + 1 && networks@[i] == m && m.family_of()
                                == family) by {
                        if out@.contains(m) {
                            let j = choose|j: int|
                                0 <= j < k && networks@[j] == m && m.family_of() == family;
                            assert(0 <= j < k + 1 && networks@[j] == m);
                        }
                        if exists|i: int|
                            0 <= i < k + 1 && networks@[i] == m && m.family_of() == family {
                            let i = choose|i: int|
                                0 <= i < k + 1 && networks@[i] == m && m.family_of() == family;
                            assert(i != k);
                            assert(0 <= i < k && networks@[i] == m);
                        }
                    }
                    assert forall|i: int| 0 <= i < out@.len() implies exists|j: int|
                        0 <= j < k + 1 && networks@[j] == #[trigger] out@[i] by {
                        let j = choose|j: int| 0 <= j < k && networks@[j] == out@[i];
                        assert(0 <= j < k + 1 && networks@[j] == out@[i]);
                    }
                }
            }
            k = k + 1;
        }
        proof {
            assert forall|n: Network|
                out@.contains(n) <==> (self.clients().holds(n) && n.family_of()
                    == hash@.family) by {
                if out@.contains(n) {
                    let i = choose|i: int|
                        0 <= i < k && networks@[i] == n && n.family_of() == family;
                    assert(networks@.contains(n));
                }
                if self.clients().holds(n) && n.family_of() == hash@.family {
                    assert(networks@.contains(n));
                    let i = choose|i: int| 0 <= i < networks@.len() && networks@[i] == n;
                    assert(0 <= i < k && networks@[i] == n && n.family_of() == family);
                }
            }
        }
        out
    }
}

} // verus!
