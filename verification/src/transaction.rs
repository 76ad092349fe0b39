//! Transaction identifiers of the two families, their text forms, and the
//! unified status of a transaction.

use vstd::prelude::*;
use crate::address::{
    is_prefixed_hex, lemma_prefixed_hex, lemma_symbols_not_prefixed, parse_prefixed_hex,
    prefixed_hex, same_bytes, write_prefixed_hex,
};
use crate::base58::{all_symbols, parse_signature, signature_of_text, signature_text, text_of_signature};
use crate::hex::decoded;
use crate::network::NetworkFamily;

verus! {

/// Copies the 32 bytes of `bytes`.
pub(crate) fn array32(bytes: &[u8]) -> (r: [u8; 32])
    requires
        bytes@.len() == 32,
    ensures
        r@ == bytes@,
{
    let mut out = [0u8; 32];
    let mut i: usize = 0;
    while i < 32
        invariant
            bytes@.len() == 32,
            0 <= i <= 32,
            forall|k: int| 0 <= k < i ==> out@[k] == bytes@[k],
        decreases 32 - i,
    {
        out[i] = bytes[i];
        i = i + 1;
    }
    proof {
        assert(out@ =~= bytes@);
    }
    out
}

/// The identifier of a submitted transaction.
#[derive(Clone, Copy, Debug, PartialEq, Eq)]
pub enum TransactionHash {
    /// The 32-byte hash of an EVM transaction.
    Evm([u8; 32]),
    /// The 64-byte first signature of a Solana transaction.
    Solana([u8; 64]),
}

/// What a transaction identifier is: its family and its bytes.
pub struct HashModel {
    pub family: NetworkFamily,
    pub bytes: Seq<u8>,
}

impl View for TransactionHash {
    type V = HashModel;

    open spec fn view(&self) -> HashModel {
        match self {
            TransactionHash::Evm(bytes) => HashModel { family: NetworkFamily::Evm, bytes: bytes@ },
            TransactionHash::Solana(bytes) => HashModel {
                family: NetworkFamily::Solana,
                bytes: bytes@,
            },
        }
    }
}

impl TransactionHash {
    /// The identifier that `text` denotes: `0x` and 64 hexadecimal digits for
    /// an EVM transaction; else the base58 text of a Solana signature; else
    /// nothing. A text is never read as both.
    pub open spec fn parsed(text: Seq<u8>) -> Option<HashModel> {
        if is_prefixed_hex(text, 32) {
            Some(HashModel { family: NetworkFamily::Evm, bytes: decoded(text.skip(2)) })
        } else {
            match signature_of_text(text) {
                Some(bytes) => Some(HashModel { family: NetworkFamily::Solana, bytes }),
                None => None,
            }
        }
    }

    /// `text` is the text form of `self`.
    pub open spec fn is_text(self, text: Seq<u8>) -> bool {
        match self {
            TransactionHash::Evm(bytes) => text == prefixed_hex(bytes@),
            TransactionHash::Solana(bytes) => {
                &&& text == text_of_signature(bytes@)
                &&& all_symbols(text)
                &&& signature_of_text(text) == Some(bytes@)
            },
        }
    }

    /// The family on whose chains the transaction lives.
    pub fn family(&self) -> (f: NetworkFamily)
        ensures
            f == self@.family,
    {
        match self {
            TransactionHash::Evm(_) => NetworkFamily::Evm,
            TransactionHash::Solana(_) => NetworkFamily::Solana,
        }
    }

    /// Whether `self` and `other` identify the same transaction.
    pub fn same_as(&self, other: &TransactionHash) -> (r: bool)
        ensures
            r == (self@ == other@),
    {
        match (self, other) {
            (TransactionHash::Evm(a), TransactionHash::Evm(b)) => same_bytes(
                a.as_slice(),
                b.as_slice(),
            ),
            (TransactionHash::Solana(a), TransactionHash::Solana(b)) => same_bytes(
                a.as_slice(),
                b.as_slice(),
            ),
            _ => false,
        }
    }

    /// Reads an identifier from its text form, or rejects the text.
    pub fn parse(text: &[u8]) -> (r: Option<TransactionHash>)
        ensures
            match r {
                Some(h) => Self::parsed(text@) == Some(h@),
                None => Self::parsed(text@).is_none(),
            },
    {
        match parse_prefixed_hex(text, 32) {
            Some(bytes) => Some(TransactionHash::Evm(array32(bytes.as_slice()))),
            None => match parse_signature(text) {
                Some(bytes) => Some(TransactionHash::Solana(bytes)),
                None => None,
            },
        }
    }

    /// The text form of the identifier.
    pub fn to_text(&self) -> (r: Vec<u8>)
        ensures
            self.is_text(r@),
    {
        match self {
            TransactionHash::Evm(bytes) => write_prefixed_hex(bytes.as_slice()),
            TransactionHash::Solana(bytes) => signature_text(bytes),
        }
    }

    /// Writes the identifier and reads it again.
    pub fn reparsed(&self) -> (r: Option<TransactionHash>)
        ensures
            r matches Some(h) && h@ == self@,
    {
        let text = self.to_text();
        proof {
            lemma_hash_round_trip(*self, text@);
        }
        Self::parse(text.as_slice())
    }
}

/// An identifier is read back from its own text form, in its own family.
pub proof fn lemma_hash_round_trip(hash: TransactionHash, text: Seq<u8>)
    requires
        hash.is_text(text),
    ensures
        TransactionHash::parsed(text) == Some(hash@),
{
    match hash {
        TransactionHash::Evm(bytes) => {
            lemma_prefixed_hex(bytes@);
        },
        TransactionHash::Solana(bytes) => {
            lemma_symbols_not_prefixed(text, 32);
        },
    }
}

/// Where a transaction stands.
#[derive(Clone, Copy, Debug, PartialEq, Eq, Structural)]
pub enum TransactionState {
    Pending,
    Confirmed,
    Failed,
    NotFound,
}

/// The unified status of a transaction on either family.
#[derive(Clone, Debug, PartialEq, Eq)]
pub struct TransactionStatus {
    pub state: TransactionState,
    pub block_number: Option<u64>,
    pub confirmations: Option<u64>,
    pub error: Option<String>,
}

/// What an EVM node reports of a transaction that it knows.
#[derive(Clone, Copy, Debug, PartialEq, Eq)]
pub struct EvmReceipt {
    /// The block that holds the transaction; `None` while it waits in the pool.
    pub block_number: Option<u64>,
    /// Whether execution succeeded.
    pub succeeded: bool,
}

/// What a Solana node reports of a signature that it knows.
#[derive(Clone, Debug, PartialEq, Eq)]
pub struct SolanaSignatureStatus {
    pub slot: u64,
    /// The number of blocks since confirmation; `None` once the cluster has
    /// finalized the transaction.
    pub confirmations: Option<u64>,
    /// The error with which the transaction failed, if it did.
    pub error: Option<String>,
}

/// The message carried by the status of a reverted EVM transaction.
pub open spec fn reverted_message() -> Seq<char> {
    "Transaction reverted"@
}

/// The number of blocks from `block` to `head`, both counted; 0 where the
/// head is behind the block.
pub open spec fn depth(block: u64, head: u64) -> u64 {
    if head < block {
        0
    } else if head - block == u64::MAX {
        u64::MAX
    } else {
        (head - block + 1) as u64
    }
}

impl TransactionStatus {
    /// The status that stands for an EVM receipt, seen when the chain's
    /// newest block is `head`.
    pub open spec fn of_evm(self, receipt: Option<EvmReceipt>, head: u64) -> bool {
        match receipt {
            None => {
                &&& self.state == TransactionState::NotFound
                &&& self.block_number.is_none()
                &&& self.confirmations.is_none()
                &&& self.error.is_none()
            },
            Some(r) => match r.block_number {
                None => {
                    &&& self.state == TransactionState::Pending
                    &&& self.block_number.is_none()
                    &&& self.confirmations.is_none()
                    &&& self.error.is_none()
                },
                Some(block) => {
                    &&& self.block_number == Some(block)
                    &&& self.confirmations == Some(depth(block, head))
                    &&& if r.succeeded {
                        self.state == TransactionState::Confirmed && self.error.is_none()
                    } else {
                        &&& self.state == TransactionState::Failed
                        &&& self.error matches Some(m) && m@ == reverted_message()
                    }
                },
            },
        }
    }

    /// The status that stands for what a Solana node reported.
    pub open spec fn of_solana(self, status: Option<SolanaSignatureStatus>) -> bool {
        match status {
            None => {
                &&& self.state == TransactionState::NotFound
                &&& self.block_number.is_none()
                &&& self.confirmations.is_none()
                &&& self.error.is_none()
            },
            Some(s) => {
                &&& self.block_number == Some(s.slot)
                &&& self.confirmations == s.confirmations
                &&& self.error == s.error
                &&& self.state == if s.error.is_some() {
                    TransactionState::Failed
                } else if s.confirmations.is_none() {
                    TransactionState::Confirmed
                } else {
                    TransactionState::Pending
                }
            },
        }
    }

    /// Whether the chain knows the transaction.
    pub fn is_known(&self) -> (r: bool)
        ensures
            r == (self.state != TransactionState::NotFound),
    {
        self.state != TransactionState::NotFound
    }

    /// The status of a transaction that the chain does not know.
    pub fn not_found() -> (r: TransactionStatus)
        ensures
            r.of_evm(None, 0),
            r.of_solana(None),
    {
        TransactionStatus {
            state: TransactionState::NotFound,
            block_number: None,
            confirmations: None,
            error: None,
        }
    }

    /// Maps the receipt lookup of an EVM chain to the unified status. A
    /// transaction that the chain does not know is `NotFound`.
    pub fn from_evm_receipt(receipt: Option<EvmReceipt>, head: u64) -> (r: TransactionStatus)
        ensures
            r.of_evm(receipt, head),
    {
        match receipt {
            None => Self::not_found(),
            Some(found) => match found.block_number {
                None => TransactionStatus {
                    state: TransactionState::Pending,
                    block_number: None,
                    confirmations: None,
                    error: None,
                },
                Some(block) => {
                    let confirmations: u64 = if head < block {
                        0
                    } else if head - block == u64::MAX {
                        u64::MAX
                    } else {
                        head - block + 1
                    };
                    if found.succeeded {
                        TransactionStatus {
                            state: TransactionState::Confirmed,
                            block_number: Some(block),
                            confirmations: Some(confirmations),
                            error: None,
                        }
                    } else {
                        TransactionStatus {
                            state: TransactionState::Failed,
                            block_number: Some(block),
                            confirmations: Some(confirmations),
                            error: Some("Transaction reverted".to_owned()),
                        }
                    }
                },
            },
        }
    }

    /// Maps the signature lookup of a Solana cluster to the unified status.
    pub fn from_solana_status(status: Option<SolanaSignatureStatus>) -> (r: TransactionStatus)
        ensures
            r.of_solana(status),
    {
        match status {
            None => Self::not_found(),
            Some(found) => {
                let state = if found.error.is_some() {
                    TransactionState::Failed
                } else if found.confirmations.is_none() {
                    TransactionState::Confirmed
                } else {
                    TransactionState::Pending
                };
                TransactionStatus {
                    state,
                    block_number: Some(found.slot),
                    confirmations: found.confirmations,
                    error: found.error,
                }
            },
        }
    }
}

} // verus!
