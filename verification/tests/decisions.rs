use x402_facilitator::address::{EvmAddress, MixedAddress, SolanaAddress};
use x402_facilitator::amount::TokenAmount;
use x402_facilitator::chain::SignatureError;
use x402_facilitator::error::{
    invalid_schema, FacilitatorErrorReason, FacilitatorLocalError, OutwardSignal, VerifyResponse,
};
use x402_facilitator::facilitator::{
    check_authorization, check_protocol, conclude, Facilitator, FundsQuery, FundsReport,
};
use x402_facilitator::network::{Network, USDCDeployment};
use x402_facilitator::payment::{in_window, PaymentPayload, PaymentRequirements, TransferAuthorization};
use x402_facilitator::provider_cache::{Endpoint, ProviderCache};

const EVM_PAYER: [u8; 20] = [
    0x2c, 0x75, 0x36, 0xe3, 0x60, 0x5d, 0x9c, 0x16, 0xa7, 0xa3, 0xd7, 0xb1, 0x89, 0x8e, 0x52, 0x93,
    0x96, 0xa6, 0x5c, 0x23,
];

const EVM_SIGNATURE: [u8; 65] = [
    0x3f, 0x5b, 0x90, 0x9f, 0x17, 0x62, 0xd3, 0x28, 0x34, 0xfc, 0x27, 0x85, 0x4e, 0xc6, 0xfb, 0xa5,
    0xfa, 0x14, 0x2a, 0x18, 0xdf, 0x7c, 0x0d, 0xb7, 0x9e, 0xc2, 0x11, 0xa4, 0x8e, 0xbb, 0x0a, 0xac,
    0x2e, 0xd6, 0xa3, 0x6e, 0xf3, 0x91, 0xfd, 0x1f, 0xbc, 0x33, 0x6a, 0xc2, 0x3a, 0xb5, 0xab, 0x32,
    0x9a, 0x81, 0x46, 0x5a, 0xac, 0xf9, 0x61, 0x68, 0x3b, 0xe4, 0x89, 0xad, 0x60, 0x49, 0xdf, 0x94,
    0x1c,
];

const SOLANA_PAYER: [u8; 32] = [
    0x03, 0xa1, 0x07, 0xbf, 0xf3, 0xce, 0x10, 0xbe, 0x1d, 0x70, 0xdd, 0x18, 0xe7, 0x4b, 0xc0, 0x99,
    0x67, 0xe4, 0xd6, 0x30, 0x9b, 0xa5, 0x0d, 0x5f, 0x1d, 0xdc, 0x86, 0x64, 0x12, 0x55, 0x31, 0xb8,
];

const SOLANA_SIGNATURE: [u8; 64] = [
    0xc5, 0x97, 0xa0, 0xa5, 0x1a, 0x13, 0x58, 0x8c, 0x57, 0x52, 0x5d, 0xfe, 0x6d, 0xb4, 0xc0, 0xb4,
    0xd2, 0xce, 0x0f, 0x45, 0x42, 0x3c, 0x09, 0xac, 0xd9, 0xf2, 0xab, 0x51, 0x48, 0xf7, 0x54, 0xdc,
    0xc9, 0xe9, 0x91, 0x93, 0x07, 0xa5, 0x1f, 0xfb, 0x2f, 0xf9, 0x4f, 0x60, 0x67, 0xa6, 0x3a, 0x7f,
    0x2e, 0xff, 0xfe, 0x45, 0xef, 0x40, 0x99, 0xef, 0xff, 0x38, 0xc4, 0x07, 0x07, 0x02, 0x06, 0x08,
];

const NOW: u64 = 1_700_000_100;

fn nonce() -> [u8; 32] {
    let mut bytes = [0u8; 32];
    for (i, b) in bytes.iter_mut().enumerate() {
        *b = i as u8;
    }
    bytes
}

fn evm_payer() -> MixedAddress {
    MixedAddress::Evm(EvmAddress { bytes: EVM_PAYER })
}

fn evm_receiver() -> MixedAddress {
    MixedAddress::Evm(EvmAddress { bytes: [0x22; 20] })
}

fn solana_payer() -> MixedAddress {
    MixedAddress::Solana(SolanaAddress { bytes: SOLANA_PAYER })
}

fn evm_payload() -> PaymentPayload {
    PaymentPayload {
        scheme: "exact".to_string(),
        network: Network::Monad,
        authorization: TransferAuthorization {
            from: evm_payer(),
            to: evm_receiver(),
            value: TokenAmount::from_u128(1_000_000),
            valid_after: 1_700_000_000,
            valid_before: 1_700_003_600,
            nonce: nonce(),
        },
        signature: EVM_SIGNATURE.to_vec(),
    }
}

fn evm_requirements() -> PaymentRequirements {
    PaymentRequirements {
        scheme: "exact".to_string(),
        network: Network::Monad,
        pay_to: evm_receiver(),
        asset: USDCDeployment::by_network(Network::Monad).0.asset.address,
        amount: TokenAmount::from_u128(1_000_000),
        max_timeout_seconds: 60,
        eip712: None,
    }
}

fn solana_payload() -> PaymentPayload {
    PaymentPayload {
        scheme: "exact".to_string(),
        network: Network::SolanaDevnet,
        authorization: TransferAuthorization {
            from: solana_payer(),
            to: MixedAddress::Solana(SolanaAddress { bytes: [7; 32] }),
            value: TokenAmount::from_u128(1_000_000),
            valid_after: 1_700_000_000,
            valid_before: 1_700_003_600,
            nonce: nonce(),
        },
        signature: SOLANA_SIGNATURE.to_vec(),
    }
}

fn solana_requirements() -> PaymentRequirements {
    PaymentRequirements {
        scheme: "exact".to_string(),
        network: Network::SolanaDevnet,
        pay_to: MixedAddress::Solana(SolanaAddress { bytes: [7; 32] }),
        asset: USDCDeployment::by_network(Network::SolanaDevnet).0.asset.address,
        amount: TokenAmount::from_u128(1_000_000),
        max_timeout_seconds: 60,
        eip712: None,
    }
}

fn facilitator(networks: &[Network]) -> Facilitator<u32> {
    let endpoints = networks
        .iter()
        .map(|network| Endpoint { network: *network, required: true, client: Some(1u32) })
        .collect();
    Facilitator::new(ProviderCache::build(endpoints).unwrap())
}

fn everywhere() -> Facilitator<u32> {
    facilitator(&Network::variants())
}

fn reason_of(error: FacilitatorLocalError) -> Option<FacilitatorErrorReason> {
    match error.outward() {
        OutwardSignal::Verdict(response) => response.invalid_reason,
        OutwardSignal::Rejected => None,
    }
}

#[test]
fn a_sound_evm_payment_verifies() {
    let response = everywhere()
        .verify_with(&evm_payload(), &evm_requirements(), Some(NOW), FundsReport::Sufficient)
        .unwrap();
    assert_eq!(
        response,
        VerifyResponse { is_valid: true, payer: Some(evm_payer()), invalid_reason: None }
    );
}

#[test]
fn a_sound_solana_payment_verifies() {
    let response = everywhere()
        .verify_with(&solana_payload(), &solana_requirements(), Some(NOW), FundsReport::Sufficient)
        .unwrap();
    assert_eq!(
        response,
        VerifyResponse { is_valid: true, payer: Some(solana_payer()), invalid_reason: None }
    );
}

#[test]
fn local_checks_say_what_to_ask_the_chain() {
    let query = everywhere().check_local(&evm_payload(), &evm_requirements(), Some(NOW)).unwrap();
    assert_eq!(
        query,
        FundsQuery {
            network: Network::Monad,
            payer: evm_payer(),
            asset: evm_requirements().asset,
            amount: TokenAmount::from_u128(1_000_000),
        }
    );
}

#[test]
fn a_network_without_a_client_is_unsupported() {
    let engine = facilitator(&[Network::Solana]);
    let error = engine
        .verify_with(&evm_payload(), &evm_requirements(), Some(NOW), FundsReport::Sufficient)
        .unwrap_err();
    assert_eq!(error, FacilitatorLocalError::UnsupportedNetwork(Some(evm_payer())));
    assert_eq!(reason_of(error), Some(FacilitatorErrorReason::InvalidNetwork));
}

#[test]
fn the_unsupported_network_comes_before_every_other_fault() {
    let engine = facilitator(&[Network::Solana]);
    let mut payload = evm_payload();
    payload.scheme = "upto".to_string();
    payload.network = Network::MonadTestnet;
    payload.authorization.to = evm_payer();
    payload.signature = vec![];
    assert_eq!(
        engine.verify_with(&payload, &evm_requirements(), None, FundsReport::Insufficient),
        Err(FacilitatorLocalError::UnsupportedNetwork(Some(evm_payer())))
    );
}

#[test]
fn another_scheme_is_a_scheme_mismatch() {
    let mut payload = evm_payload();
    payload.scheme = "upto".to_string();
    let error = everywhere()
        .verify_with(&payload, &evm_requirements(), Some(NOW), FundsReport::Sufficient)
        .unwrap_err();
    assert_eq!(
        error,
        FacilitatorLocalError::SchemeMismatch(
            Some(evm_payer()),
            "exact".to_string(),
            "upto".to_string()
        )
    );
    assert_eq!(reason_of(error), Some(FacilitatorErrorReason::InvalidScheme));
}

#[test]
fn another_network_is_invalid_whatever_else_holds() {
    // Everything else is sound.
    let mut payload = evm_payload();
    payload.network = Network::MonadTestnet;
    let error = everywhere()
        .verify_with(&payload, &evm_requirements(), Some(NOW), FundsReport::Sufficient)
        .unwrap_err();
    assert_eq!(
        error,
        FacilitatorLocalError::NetworkMismatch(
            Some(evm_payer()),
            Network::Monad,
            Network::MonadTestnet
        )
    );
    assert_eq!(
        error.outward(),
        OutwardSignal::Verdict(VerifyResponse {
            is_valid: false,
            payer: Some(evm_payer()),
            invalid_reason: Some(FacilitatorErrorReason::InvalidNetwork),
        })
    );

    // Everything else is broken too.
    let mut payload = evm_payload();
    payload.network = Network::Solana;
    payload.authorization.to = evm_payer();
    payload.authorization.value = TokenAmount::from_u128(0);
    payload.authorization.valid_before = 0;
    payload.signature = vec![1, 2, 3];
    let error = everywhere()
        .verify_with(&payload, &evm_requirements(), None, FundsReport::Insufficient)
        .unwrap_err();
    assert_eq!(reason_of(error), Some(FacilitatorErrorReason::InvalidNetwork));
}

#[test]
fn the_scheme_is_compared_before_the_network() {
    let mut payload = evm_payload();
    payload.scheme = "upto".to_string();
    payload.network = Network::MonadTestnet;
    let error = everywhere()
        .verify_with(&payload, &evm_requirements(), Some(NOW), FundsReport::Sufficient)
        .unwrap_err();
    assert_eq!(reason_of(error), Some(FacilitatorErrorReason::InvalidScheme));
}

#[test]
fn a_payment_to_someone_else_on_solana_devnet_is_invalid() {
    let mut payload = solana_payload();
    payload.authorization.to = MixedAddress::Solana(SolanaAddress { bytes: [8; 32] });
    let error = everywhere()
        .verify_with(&payload, &solana_requirements(), Some(NOW), FundsReport::Sufficient)
        .unwrap_err();
    assert_eq!(
        error,
        FacilitatorLocalError::ReceiverMismatch(
            solana_payer(),
            MixedAddress::Solana(SolanaAddress { bytes: [7; 32] }),
            MixedAddress::Solana(SolanaAddress { bytes: [8; 32] }),
        )
    );
    assert_eq!(
        error.outward(),
        OutwardSignal::Verdict(VerifyResponse {
            is_valid: false,
            payer: Some(solana_payer()),
            invalid_reason: Some(FacilitatorErrorReason::InvalidScheme),
        })
    );
}

#[test]
fn a_wrong_signature_is_invalid() {
    let mut payload = evm_payload();
    payload.signature[10] ^= 0x40;
    let error = everywhere()
        .verify_with(&payload, &evm_requirements(), Some(NOW), FundsReport::Sufficient)
        .unwrap_err();
    assert_eq!(error, FacilitatorLocalError::InvalidSignature(evm_payer()));
    assert_eq!(
        error.outward(),
        OutwardSignal::Verdict(VerifyResponse {
            is_valid: false,
            payer: Some(evm_payer()),
            invalid_reason: Some(FacilitatorErrorReason::InvalidScheme),
        })
    );

    let mut payload = solana_payload();
    payload.signature[10] ^= 0x40;
    assert_eq!(
        everywhere().verify_with(
            &payload,
            &solana_requirements(),
            Some(NOW),
            FundsReport::Sufficient
        ),
        Err(FacilitatorLocalError::InvalidSignature(solana_payer()))
    );
}

#[test]
fn a_signature_of_the_wrong_length_is_a_decoding_error() {
    let mut payload = evm_payload();
    payload.signature.truncate(64);
    let error = everywhere()
        .verify_with(&payload, &evm_requirements(), Some(NOW), FundsReport::Sufficient)
        .unwrap_err();
    assert_eq!(
        error,
        FacilitatorLocalError::DecodingError("signature has the wrong length".to_string())
    );
    assert_eq!(
        error.outward(),
        OutwardSignal::Verdict(VerifyResponse {
            is_valid: false,
            payer: None,
            invalid_reason: Some(FacilitatorErrorReason::FreeForm(
                "signature has the wrong length".to_string()
            )),
        })
    );
}

#[test]
fn a_token_without_a_domain_is_a_decoding_error() {
    let mut requirements = evm_requirements();
    requirements.asset = MixedAddress::Evm(EvmAddress { bytes: [0x44; 20] });
    assert_eq!(
        everywhere().verify_with(
            &evm_payload(),
            &requirements,
            Some(NOW),
            FundsReport::Sufficient
        ),
        Err(FacilitatorLocalError::DecodingError(
            "no signing domain is known for the token".to_string()
        ))
    );
}

#[test]
fn an_address_of_the_wrong_family_rejects_the_request() {
    let mut requirements = evm_requirements();
    requirements.asset = solana_payer();
    let error = everywhere()
        .verify_with(&evm_payload(), &requirements, Some(NOW), FundsReport::Sufficient)
        .unwrap_err();
    assert_eq!(error, FacilitatorLocalError::InvalidAddress(Some(solana_payer())));
    assert_eq!(error.outward(), OutwardSignal::Rejected);
}

#[test]
fn no_clock_rejects_the_request() {
    let error = everywhere()
        .verify_with(&evm_payload(), &evm_requirements(), None, FundsReport::Sufficient)
        .unwrap_err();
    assert_eq!(error, FacilitatorLocalError::ClockError);
    assert_eq!(error.outward(), OutwardSignal::Rejected);
}

#[test]
fn the_window_includes_both_of_its_ends() {
    let engine = everywhere();
    let payload = evm_payload();
    let requirements = evm_requirements();
    let verify = |now: u64| engine.verify_with(&payload, &requirements, Some(now), FundsReport::Sufficient);

    // valid_before == now is accepted; valid_before == now - 1 is rejected.
    assert!(verify(1_700_003_600).is_ok());
    assert_eq!(
        verify(1_700_003_601),
        Err(FacilitatorLocalError::InvalidTiming(
            evm_payer(),
            1_700_000_000,
            1_700_003_601,
            1_700_003_600
        ))
    );
    // valid_after == now is accepted; valid_after == now + 1 is rejected.
    assert!(verify(1_700_000_000).is_ok());
    assert_eq!(
        verify(1_699_999_999),
        Err(FacilitatorLocalError::InvalidTiming(
            evm_payer(),
            1_700_000_000,
            1_699_999_999,
            1_700_003_600
        ))
    );
    assert_eq!(
        reason_of(verify(0).unwrap_err()),
        Some(FacilitatorErrorReason::InvalidScheme)
    );
}

#[test]
fn in_window_at_the_ends_of_the_range_of_time() {
    let mut authorization = evm_payload().authorization;
    authorization.valid_after = 0;
    authorization.valid_before = u64::MAX;
    assert!(in_window(&authorization, 0));
    assert!(in_window(&authorization, u64::MAX));
    authorization.valid_after = 10;
    authorization.valid_before = 10;
    assert!(!in_window(&authorization, 9));
    assert!(in_window(&authorization, 10));
    assert!(!in_window(&authorization, 11));
    authorization.valid_after = 11;
    assert!(!in_window(&authorization, 10));
    assert!(!in_window(&authorization, 11));
}

#[test]
fn the_required_amount_is_enough_and_one_unit_less_is_not() {
    let engine = everywhere();
    // With the outcome of the signature check given, the value can be varied.
    let assess = |value: u128, required: u128| {
        let mut payload = evm_payload();
        payload.authorization.value = TokenAmount::from_u128(value);
        let mut requirements = evm_requirements();
        requirements.amount = TokenAmount::from_u128(required);
        engine.assess(&payload, &requirements, Ok(()), Some(NOW))
    };
    assert!(assess(1_000_000, 1_000_000).is_ok());
    assert_eq!(
        assess(999_999, 1_000_000),
        Err(FacilitatorLocalError::InsufficientValue(evm_payer()))
    );
    assert!(assess(1_000_001, 1_000_000).is_ok());
    assert!(assess(0, 0).is_ok());
    assert_eq!(
        reason_of(assess(0, 1).unwrap_err()),
        Some(FacilitatorErrorReason::InvalidScheme)
    );
}

#[test]
fn a_signed_payment_below_the_required_amount_is_insufficient() {
    let mut requirements = evm_requirements();
    requirements.amount = TokenAmount::from_u128(1_000_001);
    assert_eq!(
        everywhere().verify_with(
            &evm_payload(),
            &requirements,
            Some(NOW),
            FundsReport::Sufficient
        ),
        Err(FacilitatorLocalError::InsufficientValue(evm_payer()))
    );
}

#[test]
fn the_chain_decides_last() {
    let engine = everywhere();
    let error = engine
        .verify_with(&evm_payload(), &evm_requirements(), Some(NOW), FundsReport::Insufficient)
        .unwrap_err();
    assert_eq!(error, FacilitatorLocalError::InsufficientFunds(evm_payer()));
    assert_eq!(
        error.outward(),
        OutwardSignal::Verdict(VerifyResponse {
            is_valid: false,
            payer: Some(evm_payer()),
            invalid_reason: Some(FacilitatorErrorReason::InsufficientFunds),
        })
    );

    let error = engine
        .verify_with(
            &evm_payload(),
            &evm_requirements(),
            Some(NOW),
            FundsReport::Unavailable("connection refused".to_string()),
        )
        .unwrap_err();
    assert_eq!(error, FacilitatorLocalError::ContractCall("connection refused".to_string()));
    assert_eq!(error.outward(), OutwardSignal::Rejected);
}

#[test]
fn a_local_fault_hides_what_the_chain_said() {
    let mut payload = evm_payload();
    payload.authorization.valid_before = NOW - 1;
    let error = everywhere()
        .assess(&payload, &evm_requirements(), Ok(()), Some(NOW))
        .unwrap_err();
    assert_eq!(
        error,
        FacilitatorLocalError::InvalidTiming(evm_payer(), 1_700_000_000, NOW, NOW - 1)
    );
}

#[test]
fn verifying_twice_gives_the_same_answer() {
    let engine = everywhere();
    for funds in [
        FundsReport::Sufficient,
        FundsReport::Insufficient,
        FundsReport::Unavailable("timeout".to_string()),
    ] {
        let first =
            engine.verify_with(&evm_payload(), &evm_requirements(), Some(NOW), funds.clone());
        let second = engine.verify_with(&evm_payload(), &evm_requirements(), Some(NOW), funds);
        assert_eq!(first, second);
    }
    let mut broken = solana_payload();
    broken.signature[0] ^= 1;
    let first =
        engine.verify_with(&broken, &solana_requirements(), Some(NOW), FundsReport::Sufficient);
    let second =
        engine.verify_with(&broken, &solana_requirements(), Some(NOW), FundsReport::Sufficient);
    assert_eq!(first, second);
    assert!(first.is_err());
}

#[test]
fn protocol_checks_in_their_order() {
    let requirements = evm_requirements();
    assert_eq!(check_protocol(true, &evm_payload(), &requirements), Ok(()));
    assert_eq!(
        check_protocol(false, &evm_payload(), &requirements),
        Err(FacilitatorLocalError::UnsupportedNetwork(Some(evm_payer())))
    );
    let mut payload = evm_payload();
    payload.authorization.to = evm_payer();
    assert_eq!(
        check_protocol(true, &payload, &requirements),
        Err(FacilitatorLocalError::ReceiverMismatch(evm_payer(), evm_receiver(), evm_payer()))
    );
    payload.network = Network::Solana;
    assert_eq!(
        check_protocol(true, &payload, &requirements),
        Err(FacilitatorLocalError::NetworkMismatch(
            Some(evm_payer()),
            Network::Monad,
            Network::Solana
        ))
    );
}

#[test]
fn authorization_checks_for_each_outcome_of_the_signature_check() {
    let payload = evm_payload();
    let requirements = evm_requirements();
    assert_eq!(check_authorization(&payload, &requirements, Ok(()), Some(NOW)), Ok(()));
    assert_eq!(
        check_authorization(&payload, &requirements, Err(SignatureError::Rejected), Some(NOW)),
        Err(FacilitatorLocalError::InvalidSignature(evm_payer()))
    );
    assert_eq!(
        check_authorization(&payload, &requirements, Err(SignatureError::WrongLength), Some(NOW)),
        Err(FacilitatorLocalError::DecodingError("signature has the wrong length".to_string()))
    );
    assert_eq!(
        check_authorization(&payload, &requirements, Err(SignatureError::UnknownDomain), Some(NOW)),
        Err(FacilitatorLocalError::DecodingError(
            "no signing domain is known for the token".to_string()
        ))
    );
    assert_eq!(
        check_authorization(
            &payload,
            &requirements,
            Err(SignatureError::InvalidAddress(solana_payer())),
            Some(NOW)
        ),
        Err(FacilitatorLocalError::InvalidAddress(Some(solana_payer())))
    );
    // The signature is judged before the clock is missed.
    assert_eq!(
        check_authorization(&payload, &requirements, Err(SignatureError::Rejected), None),
        Err(FacilitatorLocalError::InvalidSignature(evm_payer()))
    );
    assert_eq!(
        check_authorization(&payload, &requirements, Ok(()), None),
        Err(FacilitatorLocalError::ClockError)
    );
}

#[test]
fn conclude_for_each_answer_of_the_chain() {
    let payload = evm_payload();
    assert_eq!(conclude(&payload, FundsReport::Sufficient), Ok(VerifyResponse::valid(evm_payer())));
    assert_eq!(
        conclude(&payload, FundsReport::Insufficient),
        Err(FacilitatorLocalError::InsufficientFunds(evm_payer()))
    );
    assert_eq!(
        conclude(&payload, FundsReport::Unavailable("down".to_string())),
        Err(FacilitatorLocalError::ContractCall("down".to_string()))
    );
}

#[test]
fn every_error_has_its_outward_signal() {
    let payer = evm_payer();
    let invalid = |payer: Option<MixedAddress>, reason: FacilitatorErrorReason| {
        OutwardSignal::Verdict(VerifyResponse { is_valid: false, payer, invalid_reason: Some(reason) })
    };
    assert_eq!(
        FacilitatorLocalError::SchemeMismatch(None, "a".to_string(), "b".to_string()).outward(),
        invalid(None, FacilitatorErrorReason::InvalidScheme)
    );
    assert_eq!(
        FacilitatorLocalError::ReceiverMismatch(payer, payer, payer).outward(),
        invalid(Some(payer), FacilitatorErrorReason::InvalidScheme)
    );
    assert_eq!(
        FacilitatorLocalError::InvalidSignature(payer).outward(),
        invalid(Some(payer), FacilitatorErrorReason::InvalidScheme)
    );
    assert_eq!(
        FacilitatorLocalError::InvalidTiming(payer, 1, 2, 3).outward(),
        invalid(Some(payer), FacilitatorErrorReason::InvalidScheme)
    );
    assert_eq!(
        FacilitatorLocalError::InsufficientValue(payer).outward(),
        invalid(Some(payer), FacilitatorErrorReason::InvalidScheme)
    );
    assert_eq!(
        FacilitatorLocalError::NetworkMismatch(None, Network::Monad, Network::Solana).outward(),
        invalid(None, FacilitatorErrorReason::InvalidNetwork)
    );
    assert_eq!(
        FacilitatorLocalError::UnsupportedNetwork(Some(payer)).outward(),
        invalid(Some(payer), FacilitatorErrorReason::InvalidNetwork)
    );
    assert_eq!(
        FacilitatorLocalError::DecodingError("bad field".to_string()).outward(),
        invalid(None, FacilitatorErrorReason::FreeForm("bad field".to_string()))
    );
    assert_eq!(
        FacilitatorLocalError::InsufficientFunds(payer).outward(),
        invalid(Some(payer), FacilitatorErrorReason::InsufficientFunds)
    );
    assert_eq!(
        FacilitatorLocalError::ContractCall("rpc".to_string()).outward(),
        OutwardSignal::Rejected
    );
    assert_eq!(
        FacilitatorLocalError::InvalidAddress(Some(payer)).outward(),
        OutwardSignal::Rejected
    );
    assert_eq!(FacilitatorLocalError::InvalidAddress(None).outward(), OutwardSignal::Rejected);
    assert_eq!(FacilitatorLocalError::ClockError.outward(), OutwardSignal::Rejected);
}

#[test]
fn responses_carry_a_reason_exactly_where_they_are_negative() {
    let positive = VerifyResponse::valid(evm_payer());
    assert!(positive.is_valid);
    assert_eq!(positive.payer, Some(evm_payer()));
    assert_eq!(positive.invalid_reason, None);

    let negative = VerifyResponse::invalid(None, FacilitatorErrorReason::InvalidNetwork);
    assert!(!negative.is_valid);
    assert_eq!(negative.payer, None);
    assert_eq!(negative.invalid_reason, Some(FacilitatorErrorReason::InvalidNetwork));

    assert_eq!(
        invalid_schema(Some(evm_payer())),
        VerifyResponse {
            is_valid: false,
            payer: Some(evm_payer()),
            invalid_reason: Some(FacilitatorErrorReason::InvalidScheme),
        }
    );
}

#[test]
fn requirements_name_their_token_asset() {
    let asset = evm_requirements().token_asset();
    assert_eq!(asset.network, Network::Monad);
    assert_eq!(asset.address, evm_requirements().asset);
    assert!(asset.is_consistent());
}
