//! Construction and hashing of Bitcoin-family transactions, with the script
//! trees, outputs and inputs of Babylon staking.

pub mod babylon;
pub mod ecdsa;
pub mod encode;
pub mod error;
pub mod hash;
pub mod legacy_sighash;
pub mod modules;
pub mod ordinals;
pub mod proto;
pub mod schnorr;
pub mod script;
pub mod sighash;
pub mod sighash_engine;
pub mod signature;
pub mod standard_script;
pub mod taproot;
pub mod taproot1_sighash;
pub mod transaction;
pub mod utxo_builder;
pub mod witness0_sighash;
