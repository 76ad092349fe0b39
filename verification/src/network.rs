//! The networks that the facilitator knows, the family of each, and the
//! token deployments that are known on them.

use vstd::prelude::*;
use crate::address::{AddressModel, EvmAddress, MixedAddress, SolanaAddress};

verus! {

/// A chain that the facilitator can serve.
#[derive(Debug, Hash, Clone, Copy, PartialEq, Eq, Structural)]
pub enum Network {
    /// Monad mainnet (chain id 143).
    Monad,
    /// Monad testnet (chain id 10143).
    MonadTestnet,
    /// Solana mainnet.
    Solana,
    /// Solana devnet.
    SolanaDevnet,
}

/// The two structurally different kinds of chain.
#[derive(Debug, Clone, Copy, PartialEq, Eq, Structural)]
pub enum NetworkFamily {
    Evm,
    Solana,
}

impl From<Network> for NetworkFamily {
    fn from(value: Network) -> (r: NetworkFamily) {
        match value {
            Network::Monad => NetworkFamily::Evm,
            Network::MonadTestnet => NetworkFamily::Evm,
            Network::Solana => NetworkFamily::Solana,
            Network::SolanaDevnet => NetworkFamily::Solana,
        }
    }
}

impl vstd::std_specs::convert::FromSpecImpl<Network> for NetworkFamily {
    open spec fn obeys_from_spec() -> bool {
        true
    }

    open spec fn from_spec(value: Network) -> NetworkFamily {
        value.family_of()
    }
}

/// All networks, in the order in which the registry lists them.
pub open spec fn all_networks() -> Seq<Network> {
    seq![Network::Monad, Network::MonadTestnet, Network::Solana, Network::SolanaDevnet]
}

impl Network {
    /// The family of a network.
    pub open spec fn family_of(self) -> NetworkFamily {
        match self {
            Network::Monad | Network::MonadTestnet => NetworkFamily::Evm,
            Network::Solana | Network::SolanaDevnet => NetworkFamily::Solana,
        }
    }

    /// The place of a network in `all_networks()`.
    pub open spec fn position(self) -> int {
        match self {
            Network::Monad => 0,
            Network::MonadTestnet => 1,
            Network::Solana => 2,
            Network::SolanaDevnet => 3,
        }
    }

    /// The chain id of an EVM network; Solana clusters have none.
    pub open spec fn chain_id_of(self) -> Option<u64> {
        match self {
            Network::Monad => Some(143u64),
            Network::MonadTestnet => Some(10143u64),
            Network::Solana | Network::SolanaDevnet => None,
        }
    }

    /// The name under which a network goes on the wire.
    pub open spec fn name_of(self) -> Seq<char> {
        match self {
            Network::Monad => "monad"@,
            Network::MonadTestnet => "monad-testnet"@,
            Network::Solana => "solana"@,
            Network::SolanaDevnet => "solana-devnet"@,
        }
    }

    /// All known networks.
    pub fn variants() -> (r: Vec<Network>)
        ensures
            r@ == all_networks(),
            forall|n: Network| r@[n.position()] == n,
    {
        let r = vec![Network::Monad, Network::MonadTestnet, Network::Solana, Network::SolanaDevnet];
        proof {
            assert(r@ =~= all_networks());
            assert forall|n: Network| r@[n.position()] == n by {
                match n {
                    Network::Monad => {},
                    Network::MonadTestnet => {},
                    Network::Solana => {},
                    Network::SolanaDevnet => {},
                }
            }
        }
        r
    }

    /// The family of this network.
    pub fn family(self) -> (f: NetworkFamily)
        ensures
            f == self.family_of(),
    {
        NetworkFamily::from(self)
    }

    /// The place of this network in `Network::variants()`.
    pub fn index(self) -> (i: usize)
        ensures
            i == self.position(),
            i < 4,
    {
        match self {
            Network::Monad => 0,
            Network::MonadTestnet => 1,
            Network::Solana => 2,
            Network::SolanaDevnet => 3,
        }
    }

    /// The chain id that enters EIP-712 domains on this network.
    pub fn chain_id(self) -> (id: Option<u64>)
        ensures
            id == self.chain_id_of(),
            id.is_some() <==> self.family_of() == NetworkFamily::Evm,
    {
        match self {
            Network::Monad => Some(143),
            Network::MonadTestnet => Some(10143),
            Network::Solana => None,
            Network::SolanaDevnet => None,
        }
    }

    /// The name of this network on the wire.
    pub fn name(self) -> (r: &'static str)
        ensures
            r@ == self.name_of(),
    {
        match self {
            Network::Monad => "monad",
            Network::MonadTestnet => "monad-testnet",
            Network::Solana => "solana",
            Network::SolanaDevnet => "solana-devnet",
        }
    }
}

/// A token contract or mint on one network.
#[derive(Clone, Copy, Debug, PartialEq, Eq)]
pub struct TokenAsset {
    pub address: MixedAddress,
    pub network: Network,
}

impl TokenAsset {
    /// The address is one of the network's own family.
    pub open spec fn wf(self) -> bool {
        self.address@.family == self.network.family_of()
    }

    /// Whether the address is one of the network's own family.
    pub fn is_consistent(&self) -> (r: bool)
        ensures
            r == self.wf(),
    {
        self.address.family() == self.network.family()
    }
}

/// The EIP-712 domain parameters of a token contract.
#[derive(Clone, Debug, PartialEq, Eq)]
pub struct TokenDeploymentEip712 {
    pub name: String,
    pub version: String,
}

/// A token as deployed on one network.
#[derive(Clone, Debug, PartialEq, Eq)]
pub struct TokenDeployment {
    pub asset: TokenAsset,
    pub decimals: u8,
    pub eip712: Option<TokenDeploymentEip712>,
}

impl TokenDeployment {
    /// The asset is consistent, and the deployment carries EIP-712 parameters
    /// exactly where its network is an EVM chain.
    pub open spec fn wf(self) -> bool {
        &&& self.asset.wf()
        &&& self.eip712.is_some() <==> self.asset.network.family_of() == NetworkFamily::Evm
    }
}

/// The USDC deployment of a network.
#[derive(Clone, Debug, PartialEq, Eq)]
pub struct USDCDeployment(pub TokenDeployment);

/// The address of USDC on each network.
pub open spec fn usdc_address(network: Network) -> AddressModel {
    match network {
        Network::Monad => AddressModel {
            family: NetworkFamily::Evm,
            bytes: seq![
                0x75u8, 0x47, 0x04, 0xbc, 0x05, 0x9f, 0x8c, 0x67, 0x01, 0x2f,
                0xed, 0x69, 0xbc, 0x8a, 0x32, 0x7a, 0x5a, 0xaf, 0xb6, 0x03,
            ],
        },
        Network::MonadTestnet => AddressModel {
            family: NetworkFamily::Evm,
            bytes: seq![
                0x53u8, 0x4b, 0x2f, 0x3a, 0x21, 0x13, 0x0d, 0x7a, 0x60, 0x83,
                0x0c, 0x2d, 0xf8, 0x62, 0x31, 0x9e, 0x59, 0x39, 0x43, 0xa3,
            ],
        },
        Network::Solana => AddressModel {
            family: NetworkFamily::Solana,
            bytes: seq![
                0xc6u8, 0xfa, 0x7a, 0xf3, 0xbe, 0xdb, 0xad, 0x3a, 0x3d, 0x65, 0xf3,
                0x6a, 0xab, 0xc9, 0x74, 0x31, 0xb1, 0xbb, 0xe4, 0xc2, 0xd2, 0xf6,
                0xe0, 0xe4, 0x7c, 0xa6, 0x02, 0x03, 0x45, 0x2f, 0x5d, 0x61,
            ],
        },
        Network::SolanaDevnet => AddressModel {
            family: NetworkFamily::Solana,
            bytes: seq![
                0x3bu8, 0x44, 0x2c, 0xb3, 0x91, 0x21, 0x57, 0xf1, 0x3a, 0x93, 0x3d,
                0x01, 0x34, 0x28, 0x2d, 0x03, 0x2b, 0x5f, 0xfe, 0xcd, 0x01, 0xa2,
                0xdb, 0xf1, 0xb7, 0x79, 0x06, 0x08, 0xdf, 0x00, 0x2e, 0xa7,
            ],
        },
    }
}

fn usdc_monad() -> (a: MixedAddress)
    ensures
        a@ == usdc_address(Network::Monad),
{
    let bytes: [u8; 20] = [
        0x75, 0x47, 0x04, 0xbc, 0x05, 0x9f, 0x8c, 0x67, 0x01, 0x2f,
        0xed, 0x69, 0xbc, 0x8a, 0x32, 0x7a, 0x5a, 0xaf, 0xb6, 0x03,
    ];
    proof {
        assert(bytes@ =~= usdc_address(Network::Monad).bytes);
    }
    MixedAddress::Evm(EvmAddress { bytes })
}

fn usdc_monad_testnet() -> (a: MixedAddress)
    ensures
        a@ == usdc_address(Network::MonadTestnet),
{
    let bytes: [u8; 20] = [
        0x53, 0x4b, 0x2f, 0x3a, 0x21, 0x13, 0x0d, 0x7a, 0x60, 0x83,
        0x0c, 0x2d, 0xf8, 0x62, 0x31, 0x9e, 0x59, 0x39, 0x43, 0xa3,
    ];
    proof {
        assert(bytes@ =~= usdc_address(Network::MonadTestnet).bytes);
    }
    MixedAddress::Evm(EvmAddress { bytes })
}

fn usdc_solana() -> (a: MixedAddress)
    ensures
        a@ == usdc_address(Network::Solana),
{
    let bytes: [u8; 32] = [
        0xc6, 0xfa, 0x7a, 0xf3, 0xbe, 0xdb, 0xad, 0x3a, 0x3d, 0x65, 0xf3,
        0x6a, 0xab, 0xc9, 0x74, 0x31, 0xb1, 0xbb, 0xe4, 0xc2, 0xd2, 0xf6,
        0xe0, 0xe4, 0x7c, 0xa6, 0x02, 0x03, 0x45, 0x2f, 0x5d, 0x61,
    ];
    proof {
        assert(bytes@ =~= usdc_address(Network::Solana).bytes);
    }
    MixedAddress::Solana(SolanaAddress { bytes })
}

fn usdc_solana_devnet() -> (a: MixedAddress)
    ensures
        a@ == usdc_address(Network::SolanaDevnet),
{
    let bytes: [u8; 32] = [
        0x3b, 0x44, 0x2c, 0xb3, 0x91, 0x21, 0x57, 0xf1, 0x3a, 0x93, 0x3d,
        0x01, 0x34, 0x28, 0x2d, 0x03, 0x2b, 0x5f, 0xfe, 0xcd, 0x01, 0xa2,
        0xdb, 0xf1, 0xb7, 0x79, 0x06, 0x08, 0xdf, 0x00, 0x2e, 0xa7,
    ];
    proof {
        assert(bytes@ =~= usdc_address(Network::SolanaDevnet).bytes);
    }
    MixedAddress::Solana(SolanaAddress { bytes })
}

impl USDCDeployment {
    /// What the registry holds for `network`.
    pub open spec fn is_known(self, network: Network) -> bool {
        &&& self.0.wf()
        &&& self.0.asset.network == network
        &&& self.0.asset.address@ == usdc_address(network)
        &&& self.0.decimals == 6
        &&& self.0.eip712 matches Some(domain) ==> domain.name@ == "USDC"@ && domain.version@ == "2"@
    }

    /// The known USDC deployment of `network`.
    pub fn by_network(network: Network) -> (d: USDCDeployment)
        ensures
            d.is_known(network),
    {
        match network {
            Network::Monad => USDCDeployment(
                TokenDeployment {
                    asset: TokenAsset { address: usdc_monad(), network: Network::Monad },
                    decimals: 6,
                    eip712: Some(
                        TokenDeploymentEip712 { name: "USDC".to_owned(), version: "2".to_owned() },
                    ),
                },
            ),
            Network::MonadTestnet => USDCDeployment(
                TokenDeployment {
                    asset: TokenAsset { address: usdc_monad_testnet(), network: Network::MonadTestnet },
                    decimals: 6,
                    eip712: Some(
                        TokenDeploymentEip712 { name: "USDC".to_owned(), version: "2".to_owned() },
                    ),
                },
            ),
            Network::Solana => USDCDeployment(
                TokenDeployment {
                    asset: TokenAsset { address: usdc_solana(), network: Network::Solana },
                    decimals: 6,
                    eip712: None,
                },
            ),
            Network::SolanaDevnet => USDCDeployment(
                TokenDeployment {
                    asset: TokenAsset { address: usdc_solana_devnet(), network: Network::SolanaDevnet },
                    decimals: 6,
                    eip712: None,
                },
            ),
        }
    }

    /// The deployment that this value wraps.
    pub fn token(&self) -> (t: &TokenDeployment)
        ensures
            *t == self.0,
    {
        &self.0
    }

    /// The one asset of the deployment, as a list.
    pub fn assets(&self) -> (r: Vec<TokenAsset>)
        ensures
            r@ == seq![self.0.asset],
    {
        let r = vec![self.0.asset];
        proof {
            assert(r@ =~= seq![self.0.asset]);
        }
        r
    }
}

} // verus!
