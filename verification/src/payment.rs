//! What a resource server requires and what a payer offers.

use vstd::prelude::*;
use crate::address::{AddressModel, MixedAddress};
use crate::amount::TokenAmount;
use crate::network::{Network, TokenAsset, TokenDeploymentEip712};

verus! {

/// The scheme that this facilitator implements: a transfer of exactly the
/// authorized amount.
pub open spec fn exact_scheme() -> Seq<char> {
    "exact"@
}

/// A signed, time-bounded, single-use instruction to move tokens.
#[derive(Clone, Debug, PartialEq, Eq)]
pub struct TransferAuthorization {
    /// The payer.
    pub from: MixedAddress,
    /// The receiver.
    pub to: MixedAddress,
    pub value: TokenAmount,
    /// The first second, in Unix time, at which the authorization holds.
    pub valid_after: u64,
    /// The last second, in Unix time, at which the authorization holds.
    pub valid_before: u64,
    pub nonce: [u8; 32],
}

/// What the payer sends.
#[derive(Clone, Debug, PartialEq, Eq)]
pub struct PaymentPayload {
    pub scheme: String,
    pub network: Network,
    pub authorization: TransferAuthorization,
    pub signature: Vec<u8>,
}

/// What the resource server demands.
#[derive(Clone, Debug, PartialEq, Eq)]
pub struct PaymentRequirements {
    pub scheme: String,
    pub network: Network,
    pub pay_to: MixedAddress,
    /// The token in which payment is due, on `network`.
    pub asset: MixedAddress,
    /// The least amount that the authorization must move.
    pub amount: TokenAmount,
    /// How long the resource server waits for settlement, in seconds.
    pub max_timeout_seconds: u64,
    /// The EIP-712 domain parameters of the token, where the server names
    /// them; else those of the known deployment on `network` are used.
    pub eip712: Option<TokenDeploymentEip712>,
}

impl PaymentPayload {
    /// The account that pays.
    pub open spec fn payer(self) -> AddressModel {
        self.authorization.from@
    }
}

impl PaymentRequirements {
    /// The required token with its network.
    pub fn token_asset(&self) -> (r: TokenAsset)
        ensures
            r.address@ == self.asset@,
            r.network == self.network,
    {
        TokenAsset { address: self.asset, network: self.network }
    }
}

/// The time `now` lies in the window from `valid_after` to `valid_before`,
/// both ends included.
pub open spec fn within_window(valid_after: u64, valid_before: u64, now: u64) -> bool {
    valid_after <= now <= valid_before
}

/// Whether `now` lies in the window of the authorization.
pub fn in_window(authorization: &TransferAuthorization, now: u64) -> (r: bool)
    ensures
        r == within_window(authorization.valid_after, authorization.valid_before, now),
{
    authorization.valid_after <= now && now <= authorization.valid_before
}

} // verus!
