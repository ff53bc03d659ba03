//! The outputs of a staking transaction.

use vstd::prelude::*;
use crate::babylon::conditions::{new_op_return_script, op_return_script};
use crate::babylon::covenant_committee::{canonical_order, committee_valid, key_views};
use crate::babylon::spending_info::{
    staking_merkle_root, unspendable_key_path, StakingSpendInfo, UNSPENDABLE_KEY_PATH_BYTES,
};
use crate::babylon::tx_builder::BabylonStakingParams;
use crate::error::{SigningError, SigningErrorType, SigningResult};
use crate::hash::{H256, H32};
use crate::schnorr::XOnlyPublicKey;
use crate::standard_script::{new_p2tr_script_path, p2tr_tweaked_script};
use crate::transaction::TransactionOutput;

verus! {

/// The version of the staking announcement.
pub const VERSION: u8 = 0;

/// Builds outputs of a given amount.
#[derive(Debug)]
pub struct OutputBuilder {
    amount: i64,
}

impl OutputBuilder {
    /// The amount of the output to build.
    pub closed spec fn spec_amount(&self) -> i64 {
        self.amount
    }

    /// A builder of outputs of the given amount.
    pub fn new(amount: i64) -> (b: OutputBuilder)
        ensures
            b.spec_amount() == amount,
    {
        OutputBuilder { amount }
    }

    /// The amount of the output to build.
    pub fn get_amount(&self) -> (amount: i64)
        ensures
            amount == self.spec_amount(),
    {
        self.amount
    }
}

/// Whether `r` is what building the staking output for a tree with the given
/// root gives: the output of the amount that pays to taproot under the
/// unspendable internal key tweaked with the root, or `Internal` where that
/// key cannot be tweaked with it.
pub open spec fn is_staking_output(
    r: SigningResult<TransactionOutput>,
    amount: i64,
    merkle_root: Seq<u8>,
) -> bool {
    match p2tr_tweaked_script(UNSPENDABLE_KEY_PATH_BYTES@, Some(merkle_root)) {
        Some(script) => r matches Ok(out) && out.value == amount && out.script_pubkey@ == script,
        None => r matches Err(e) && e.kind() == SigningErrorType::Internal,
    }
}

/// The outputs of Babylon staking.
pub trait BabylonOutputBuilder: Sized {
    /// The amount of the output to build.
    spec fn amount(&self) -> i64;

    /// The staking output: it pays the amount to taproot, with the unspendable
    /// key as internal key and the staking script tree, so that it can be
    /// spent by the scripts alone. Fails with `InvalidParams` where the
    /// covenant keys and quorum make no committee, and with `Internal` where
    /// the unspendable key cannot be tweaked with the tree's root.
    fn babylon_staking(self, params: BabylonStakingParams) -> (r: SigningResult<TransactionOutput>)
        ensures
            !committee_valid(key_views(params.covenants@), params.covenant_quorum) ==> (r matches Err(
                e,
            ) && e.kind() == SigningErrorType::InvalidParams),
            committee_valid(key_views(params.covenants@), params.covenant_quorum)
                ==> is_staking_output(
                r,
                self.amount(),
                staking_merkle_root(
                    params.staker@,
                    params.staking_locktime,
                    params.finality_provider@,
                    canonical_order(key_views(params.covenants@)),
                    params.covenant_quorum,
                ),
            ),
    ;

    /// The output that announces a stake: it carries the amount and the
    /// announcement script for the tag, version 0, the two keys and the lock
    /// time.
    fn babylon_staking_op_return(
        self,
        tag: &H32,
        staker_key: &XOnlyPublicKey,
        finality_provider_key: &XOnlyPublicKey,
        staking_locktime: u16,
    ) -> (out: TransactionOutput)
        ensures
            out.value == self.amount(),
            out.script_pubkey@ == op_return_script(
                tag@,
                0,
                staker_key@,
                finality_provider_key@,
                staking_locktime,
            ),
    ;
}

impl BabylonOutputBuilder for OutputBuilder {
    open spec fn amount(&self) -> i64 {
        self.spec_amount()
    }

    fn babylon_staking(self, params: BabylonStakingParams) -> (r: SigningResult<TransactionOutput>) {
        let spend_info = match StakingSpendInfo::new(
            &params.staker,
            params.staking_locktime,
            params.finality_provider,
            params.covenants,
            params.covenant_quorum,
        ) {
            Ok(info) => info,
            Err(e) => {
                return Err(e);
            },
        };
        let merkle_root: H256 = spend_info.merkle_root();
        // The unspendable internal key leaves no key path to spend the output.
        match new_p2tr_script_path(&unspendable_key_path(), &merkle_root) {
            Some(script_pubkey) => Ok(
                TransactionOutput { value: self.get_amount(), script_pubkey },
            ),
            None => Err(
                SigningError::new(
                    SigningErrorType::Internal,
                    "The unspendable key cannot be tweaked with the tree root",
                ),
            ),
        }
    }

    fn babylon_staking_op_return(
        self,
        tag: &H32,
        staker_key: &XOnlyPublicKey,
        finality_provider_key: &XOnlyPublicKey,
        staking_locktime: u16,
    ) -> (out: TransactionOutput) {
        let op_return = new_op_return_script(
            tag,
            VERSION,
            staker_key,
            finality_provider_key,
            staking_locktime,
        );
        TransactionOutput { value: self.get_amount(), script_pubkey: op_return }
    }
}

} // verus!
