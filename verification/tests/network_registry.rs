use std::str::FromStr;

use x402_facilitator::address::MixedAddress;
use x402_facilitator::network::{Network, NetworkFamily, USDCDeployment};

#[test]
fn variants_lists_the_four_networks_in_order() {
    assert_eq!(
        Network::variants(),
        vec![Network::Monad, Network::MonadTestnet, Network::Solana, Network::SolanaDevnet]
    );
}

#[test]
fn index_is_the_place_in_variants() {
    let all = Network::variants();
    for (place, network) in all.iter().enumerate() {
        assert_eq!(network.index(), place);
    }
}

#[test]
fn family_of_each_network() {
    assert_eq!(Network::Monad.family(), NetworkFamily::Evm);
    assert_eq!(Network::MonadTestnet.family(), NetworkFamily::Evm);
    assert_eq!(Network::Solana.family(), NetworkFamily::Solana);
    assert_eq!(Network::SolanaDevnet.family(), NetworkFamily::Solana);
}

#[test]
fn family_by_conversion() {
    for network in Network::variants() {
        assert_eq!(NetworkFamily::from(network), network.family());
    }
    let family: NetworkFamily = Network::SolanaDevnet.into();
    assert_eq!(family, NetworkFamily::Solana);
}

#[test]
fn names_on_the_wire() {
    assert_eq!(Network::Monad.name(), "monad");
    assert_eq!(Network::MonadTestnet.name(), "monad-testnet");
    assert_eq!(Network::Solana.name(), "solana");
    assert_eq!(Network::SolanaDevnet.name(), "solana-devnet");
}

#[test]
fn chain_ids_of_evm_networks_only() {
    assert_eq!(Network::Monad.chain_id(), Some(143));
    assert_eq!(Network::MonadTestnet.chain_id(), Some(10143));
    assert_eq!(Network::Solana.chain_id(), None);
    assert_eq!(Network::SolanaDevnet.chain_id(), None);
}

#[test]
fn usdc_has_six_decimals_everywhere() {
    for network in Network::variants() {
        let deployment = USDCDeployment::by_network(network);
        assert_eq!(deployment.0.decimals, 6);
        assert_eq!(deployment.0.asset.network, network);
        assert!(deployment.0.asset.is_consistent());
    }
}

#[test]
fn usdc_on_evm_carries_its_signing_domain() {
    for network in [Network::Monad, Network::MonadTestnet] {
        let deployment = USDCDeployment::by_network(network);
        let domain = deployment.0.eip712.expect("an EVM deployment has a domain");
        assert_eq!(domain.name, "USDC");
        assert_eq!(domain.version, "2");
    }
}

#[test]
fn usdc_on_solana_carries_no_signing_domain() {
    for network in [Network::Solana, Network::SolanaDevnet] {
        assert_eq!(USDCDeployment::by_network(network).0.eip712, None);
    }
}

#[test]
fn usdc_on_monad_is_the_published_contract() {
    let expected =
        alloy::primitives::Address::from_str("0x754704Bc059F8C67012fEd69BC8A327a5aafb603").unwrap();
    match USDCDeployment::by_network(Network::Monad).0.asset.address {
        MixedAddress::Evm(address) => assert_eq!(address.bytes, expected.into_array()),
        other => panic!("not an EVM address: {:?}", other),
    }
}

#[test]
fn usdc_on_monad_testnet_is_the_published_contract() {
    let expected =
        alloy::primitives::Address::from_str("0x534b2f3A21130d7a60830c2Df862319e593943A3").unwrap();
    match USDCDeployment::by_network(Network::MonadTestnet).0.asset.address {
        MixedAddress::Evm(address) => assert_eq!(address.bytes, expected.into_array()),
        other => panic!("not an EVM address: {:?}", other),
    }
}

#[test]
fn usdc_on_solana_is_the_published_mint() {
    let expected =
        solana_sdk::pubkey::Pubkey::from_str("EPjFWdd5AufqSSqeM2qN1xzybapC8G4wEGGkZwyTDt1v")
            .unwrap();
    match USDCDeployment::by_network(Network::Solana).0.asset.address {
        MixedAddress::Solana(address) => assert_eq!(address.bytes, expected.to_bytes()),
        other => panic!("not a Solana address: {:?}", other),
    }
}

#[test]
fn usdc_on_solana_devnet_is_the_published_mint() {
    let expected =
        solana_sdk::pubkey::Pubkey::from_str("4zMMC9srt5Ri5X14GAgXhaHii3GnPAEERYPJgZJDncDU")
            .unwrap();
    match USDCDeployment::by_network(Network::SolanaDevnet).0.asset.address {
        MixedAddress::Solana(address) => assert_eq!(address.bytes, expected.to_bytes()),
        other => panic!("not a Solana address: {:?}", other),
    }
}

#[test]
fn deployment_hands_out_its_token_and_asset() {
    let deployment = USDCDeployment::by_network(Network::Solana);
    assert_eq!(deployment.token(), &deployment.0);
    assert_eq!(deployment.assets(), vec![deployment.0.asset]);
}
