//! Babylon staking: the covenant committee, the staking scripts, the script
//! tree and the staking outputs.

pub mod conditions;
pub mod covenant_committee;
pub mod spending_info;
pub mod tx_builder;
