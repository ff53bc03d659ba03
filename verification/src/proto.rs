//! The description of an input to build, as a decoder of signing requests
//! hands it over: plain values, nothing checked yet.

use vstd::prelude::*;

verus! {

/// The output to spend: the hash of its transaction and its index.
#[derive(Debug)]
pub struct OutPoint {
    pub hash: Vec<u8>,
    pub vout: u32,
}

/// A public key, or the hash of one that the key lookup knows.
#[derive(Debug)]
pub enum PublicKeyOrHash {
    Pubkey(Vec<u8>),
    Hash(Vec<u8>),
    Unset,
}

/// A public key with a signature it gave.
#[derive(Debug)]
pub struct PublicKeySignature {
    pub public_key: Vec<u8>,
    pub signature: Vec<u8>,
}

/// A claim on an output that inscribes a BRC-20 transfer.
#[derive(Debug)]
pub struct InputBrc20Inscription {
    /// The key that the inscription is for.
    pub inscribe_to: Vec<u8>,
    /// The token's name.
    pub ticker: String,
    /// The amount to transfer, in digits.
    pub transfer_amount: String,
}

/// A claim on a staking output by its timelock path.
#[derive(Debug)]
pub struct BabylonStakingTimelockPath {
    pub staker_public_key: Vec<u8>,
    pub finality_provider_public_key: Vec<u8>,
    pub staking_time: u32,
    pub covenant_committee_public_keys: Vec<Vec<u8>>,
    pub covenant_quorum: u32,
}

/// A claim on a staking output by its unbonding path.
#[derive(Debug)]
pub struct BabylonStakingUnbondingPath {
    pub staker_public_key: Vec<u8>,
    pub finality_provider_public_key: Vec<u8>,
    pub staking_time: u32,
    pub covenant_committee_public_keys: Vec<Vec<u8>>,
    pub covenant_quorum: u32,
    pub covenant_committee_signatures: Vec<PublicKeySignature>,
}

/// A claim that names the kind of output and the key material.
#[derive(Debug)]
pub enum InputBuilder {
    P2pk(Vec<u8>),
    P2pkh(PublicKeyOrHash),
    P2wpkh(PublicKeyOrHash),
    P2trKeyPath(Vec<u8>),
    Brc20Inscribe(InputBrc20Inscription),
    BabylonTimelockPath(BabylonStakingTimelockPath),
    BabylonUnbondingPath(BabylonStakingUnbondingPath),
    Unset,
}

/// How the output to spend is claimed.
#[derive(Debug)]
pub enum ClaimingScript {
    /// By kind and key material.
    ScriptBuilder(InputBuilder),
    /// By the locking script itself.
    ScriptData(Vec<u8>),
    /// By the address that the output paid to.
    ReceiverAddress(String),
    Unset,
}

/// An input to build.
#[derive(Debug)]
pub struct Input {
    pub out_point: Option<OutPoint>,
    /// The amount of the output to spend.
    pub value: i64,
    /// The signature hash type, as a flag word.
    pub sighash_type: u32,
    /// The sequence number, where it is not the highest.
    pub sequence: Option<u32>,
    pub claiming_script: ClaimingScript,
}

} // verus!
