//! The inputs that spend a staking output by one of its script paths.

use vstd::prelude::*;
use crate::babylon::conditions::{slashing_script, timelock_script, unbonding_script};
use crate::babylon::covenant_committee::{
    canonical_order, committee_valid, key_views, partial_signatures, signature_pairs,
    signatures_acceptable, signer_keys,
};
use crate::babylon::spending_info::{
    staking_control_block, staking_merkle_root, unspendable_key_path, StakingSpendInfo,
    UNSPENDABLE_KEY_PATH_BYTES,
};
use crate::babylon::tx_builder::BabylonStakingParams;
use crate::encode::append;
use crate::error::{SigningError, SigningErrorType, SigningResult};
use crate::hash::H256;
use crate::schnorr::XOnlyPublicKey;
use crate::signature::BitcoinSchnorrSignature;
use crate::standard_script::{new_p2tr_script_path, p2tr_tweaked_script};
use crate::taproot::{leaf_hash, tap_leaf_hash, ControlBlock};
use crate::taproot1_sighash::NO_CODE_SEPARATOR;
use crate::transaction::TransactionInput;
use crate::utxo_builder::{
    is_unsigned_input, BuilderView, SigningMethod, UtxoBuilder, UtxoToSign, UtxoView,
};

verus! {

/// The signing context of a spend of a staking output by the leaf that holds
/// `leaf_script`, where the unspendable key can be tweaked with the root: the
/// output pays to taproot under that key, the staker signs for the leaf, and
/// the control block holds the hashes of the leaf's Merkle path.
pub open spec fn staking_utxo(
    builder: BuilderView,
    staker: Seq<u8>,
    leaf_script: Seq<u8>,
    path: Seq<u8>,
    merkle_root: Seq<u8>,
    covenant_signatures: Seq<Option<Seq<u8>>>,
) -> Option<UtxoView> {
    match (
        p2tr_tweaked_script(UNSPENDABLE_KEY_PATH_BYTES@, Some(merkle_root)),
        staking_control_block(merkle_root, path),
    ) {
        (Some(script), Some(block)) => Some(
            UtxoView {
                prevout_script_pubkey: script,
                reveal_script_pubkey: leaf_script,
                signing_method: SigningMethod::Taproot,
                spender_public_key: staker,
                amount: builder.amount,
                leaf_hash_code_separator: Some((tap_leaf_hash(leaf_script), 0xffff_ffffu32)),
                control_block: Some(block),
                taproot_tweak: None,
                sighash: builder.sighash,
                covenant_signatures,
            },
        ),
        _ => None,
    }
}

/// The signing context of a spend by the timelock path, for committee keys
/// given in any order.
pub open spec fn timelock_path_utxo(
    builder: BuilderView,
    staker: Seq<u8>,
    locktime: u16,
    finality_provider: Seq<u8>,
    covenants: Seq<Seq<u8>>,
    quorum: u32,
) -> Option<UtxoView> {
    let ordered = canonical_order(covenants);
    staking_utxo(
        builder,
        staker,
        timelock_script(staker, locktime),
        tap_leaf_hash(unbonding_script(staker, ordered, quorum)) + tap_leaf_hash(
            slashing_script(staker, finality_provider, ordered, quorum),
        ),
        staking_merkle_root(staker, locktime, finality_provider, ordered, quorum),
        Seq::empty(),
    )
}

/// The signing context of a spend by the unbonding path, for committee keys
/// given in any order and the signatures of committee members.
pub open spec fn unbonding_path_utxo(
    builder: BuilderView,
    staker: Seq<u8>,
    locktime: u16,
    finality_provider: Seq<u8>,
    covenants: Seq<Seq<u8>>,
    quorum: u32,
    signatures: Seq<(Seq<u8>, Seq<u8>)>,
) -> Option<UtxoView> {
    let ordered = canonical_order(covenants);
    staking_utxo(
        builder,
        staker,
        unbonding_script(staker, ordered, quorum),
        tap_leaf_hash(timelock_script(staker, locktime)) + tap_leaf_hash(
            slashing_script(staker, finality_provider, ordered, quorum),
        ),
        staking_merkle_root(staker, locktime, finality_provider, ordered, quorum),
        partial_signatures(ordered, signatures),
    )
}

/// Whether `r` is the outcome that stands for `expected`: the unsigned input
/// of the builder with the expected signing context, or `Internal` where
/// there is none.
pub open spec fn is_staking_input(
    r: SigningResult<(TransactionInput, UtxoToSign)>,
    builder: BuilderView,
    expected: Option<UtxoView>,
) -> bool {
    match expected {
        Some(view) => r matches Ok((input, utxo)) && is_unsigned_input(&input, builder) && utxo@
            == view,
        None => r matches Err(e) && e.kind() == SigningErrorType::Internal,
    }
}

/// The inputs that spend Babylon staking outputs.
pub trait BabylonUtxoBuilder: Sized {
    /// What the builder holds.
    spec fn builder_view(&self) -> BuilderView;

    /// The input that spends a staking output by the timelock path. Fails with
    /// `InvalidParams` where the covenant keys and quorum make no committee,
    /// and with `Internal` where the unspendable key cannot be tweaked with the
    /// tree's root.
    fn babylon_timelock_path(self, params: BabylonStakingParams) -> (r: SigningResult<
        (TransactionInput, UtxoToSign),
    >)
        ensures
            !committee_valid(key_views(params.covenants@), params.covenant_quorum) ==> (r matches Err(
                e,
            ) && e.kind() == SigningErrorType::InvalidParams),
            committee_valid(key_views(params.covenants@), params.covenant_quorum)
                ==> is_staking_input(
                r,
                self.builder_view(),
                timelock_path_utxo(
                    self.builder_view(),
                    params.staker@,
                    params.staking_locktime,
                    params.finality_provider@,
                    key_views(params.covenants@),
                    params.covenant_quorum,
                ),
            ),
    ;

    /// The input that spends a staking output by the unbonding path, with the
    /// signatures of covenant members. Fails with `InvalidParams` where the
    /// covenant keys and quorum make no committee, or the signers do not come
    /// in committee order, each a member and none twice, at least as many as
    /// the quorum; and with `Internal` where the unspendable key cannot be
    /// tweaked with the tree's root.
    fn babylon_unbonding_path(
        self,
        params: BabylonStakingParams,
        covenant_signatures: &Vec<(XOnlyPublicKey, BitcoinSchnorrSignature)>,
    ) -> (r: SigningResult<(TransactionInput, UtxoToSign)>)
        ensures
            !unbonding_params_valid(
                key_views(params.covenants@),
                params.covenant_quorum,
                signer_keys(signature_pairs(covenant_signatures@)),
            ) ==> (r matches Err(e) && e.kind() == SigningErrorType::InvalidParams),
            unbonding_params_valid(
                key_views(params.covenants@),
                params.covenant_quorum,
                signer_keys(signature_pairs(covenant_signatures@)),
            ) ==> is_staking_input(
                r,
                self.builder_view(),
                unbonding_path_utxo(
                    self.builder_view(),
                    params.staker@,
                    params.staking_locktime,
                    params.finality_provider@,
                    key_views(params.covenants@),
                    params.covenant_quorum,
                    signature_pairs(covenant_signatures@),
                ),
            ),
    ;
}

/// Whether the keys and quorum make a committee and the signers can stand
/// for it.
pub open spec fn unbonding_params_valid(
    covenants: Seq<Seq<u8>>,
    quorum: u32,
    signers: Seq<Seq<u8>>,
) -> bool {
    &&& committee_valid(covenants, quorum)
    &&& signatures_acceptable(canonical_order(covenants), quorum, signers)
}

/// The input and signing context for one leaf of the tree.
fn staking_input(
    builder: UtxoBuilder,
    staker: &XOnlyPublicKey,
    merkle_root: &H256,
    leaf_script: &crate::script::Script,
    control_block: SigningResult<ControlBlock>,
    covenant_signatures: Vec<Option<BitcoinSchnorrSignature>>,
    Ghost(path): Ghost<Seq<u8>>,
) -> (r: SigningResult<(TransactionInput, UtxoToSign)>)
    requires
        control_block is Ok <==> staking_control_block(merkle_root@, path) is Some,
        control_block matches Ok(block) ==> Some(block.spec_serialize()) == staking_control_block(
            merkle_root@,
            path,
        ),
    ensures
        is_staking_input(
            r,
            builder@,
            staking_utxo(
                builder@,
                staker@,
                leaf_script@,
                path,
                merkle_root@,
                crate::babylon::covenant_committee::signature_views(covenant_signatures@),
            ),
        ),
{
    let block = match control_block {
        Ok(block) => block,
        Err(_) => {
            return Err(
                SigningError::new(
                    SigningErrorType::Internal,
                    "The unspendable key cannot be tweaked with the tree root",
                ),
            );
        },
    };
    let prevout_script_pubkey = match new_p2tr_script_path(&unspendable_key_path(), merkle_root) {
        Some(script) => script,
        None => {
            return Err(
                SigningError::new(
                    SigningErrorType::Internal,
                    "The unspendable key cannot be tweaked with the tree root",
                ),
            );
        },
    };
    let mut spender_public_key: Vec<u8> = Vec::new();
    append(&mut spender_public_key, staker.as_slice());
    assert(spender_public_key@ =~= staker@);
    let leaf: H256 = leaf_hash(leaf_script.as_slice());
    let input = builder.unsigned_input();
    let utxo = UtxoToSign {
        prevout_script_pubkey,
        reveal_script_pubkey: leaf_script.duplicate(),
        signing_method: SigningMethod::Taproot,
        spender_public_key,
        amount: builder.get_amount(),
        leaf_hash_code_separator: Some((leaf, NO_CODE_SEPARATOR)),
        control_block: Some(block),
        taproot_tweak: None,
        sighash_ty: builder.get_sighash_type(),
        covenant_signatures,
    };
    Ok((input, utxo))
}

impl BabylonUtxoBuilder for UtxoBuilder {
    open spec fn builder_view(&self) -> BuilderView {
        self@
    }

    fn babylon_timelock_path(self, params: BabylonStakingParams) -> (r: SigningResult<
        (TransactionInput, UtxoToSign),
    >) {
        let spend_info = match StakingSpendInfo::new(
            &params.staker,
            params.staking_locktime,
            params.finality_provider,
            params.covenants,
            params.covenant_quorum,
        ) {
            Ok(info) => info,
            Err(e) => {
                return Err(e);
            },
        };
        let merkle_root: H256 = spend_info.merkle_root();
        let control_block = spend_info.timelock_control_block();
        let slots: Vec<Option<BitcoinSchnorrSignature>> = Vec::new();
        assert(crate::babylon::covenant_committee::signature_views(slots@) =~= Seq::empty());
        staking_input(
            self,
            &params.staker,
            &merkle_root,
            spend_info.timelock_script(),
            control_block,
            slots,
            Ghost(
                tap_leaf_hash(spend_info.spec_unbonding_script()) + tap_leaf_hash(
                    spend_info.spec_slashing_script(),
                ),
            ),
        )
    }

    fn babylon_unbonding_path(
        self,
        params: BabylonStakingParams,
        covenant_signatures: &Vec<(XOnlyPublicKey, BitcoinSchnorrSignature)>,
    ) -> (r: SigningResult<(TransactionInput, UtxoToSign)>) {
        let spend_info = match StakingSpendInfo::new(
            &params.staker,
            params.staking_locktime,
            params.finality_provider,
            params.covenants,
            params.covenant_quorum,
        ) {
            Ok(info) => info,
            Err(e) => {
                return Err(e);
            },
        };
        let slots = match spend_info.covenant_committee().with_partial_signatures(
            covenant_signatures,
        ) {
            Ok(slots) => slots,
            Err(e) => {
                return Err(e);
            },
        };
        let merkle_root: H256 = spend_info.merkle_root();
        let control_block = spend_info.unbonding_control_block();
        staking_input(
            self,
            &params.staker,
            &merkle_root,
            spend_info.unbonding_script(),
            control_block,
            slots,
            Ghost(
                tap_leaf_hash(spend_info.spec_timelock_script()) + tap_leaf_hash(
                    spend_info.spec_slashing_script(),
                ),
            ),
        )
    }
}

} // verus!
