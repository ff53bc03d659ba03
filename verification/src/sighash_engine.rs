//! The signature hash of an input, by the rules of the kind of output that
//! the input spends.

use vstd::prelude::*;
use crate::error::{SigningErrorType, SigningResult};
use crate::hash::H256;
use crate::legacy_sighash;
use crate::legacy_sighash::LegacySighash;
use crate::taproot1_sighash;
use crate::taproot1_sighash::{Taproot1Sighash, TaprootArgsView, UtxoTaprootPreimageArgs};
use crate::transaction::{TransactionInterface, TransactionView};
use crate::utxo_builder::SigningMethod;
use crate::witness0_sighash;
use crate::witness0_sighash::Witness0Sighash;

verus! {

/// The digest that a signature of the input commits to, or `InvalidParams`:
/// for a legacy input and one of witness version 0 where the transaction has
/// no such input; for a taproot input where the data of the inputs is not
/// complete or the hash type is none of taproot's.
pub open spec fn spec_sighash(
    tx: TransactionView,
    tr: TaprootArgsView,
    method: SigningMethod,
) -> Result<Seq<u8>, SigningErrorType> {
    match method {
        SigningMethod::Legacy => if witness0_sighash::input_exists(tx, tr.args) {
            Ok(legacy_sighash::spec_sighash(tx, tr.args))
        } else {
            Err(SigningErrorType::InvalidParams)
        },
        SigningMethod::Segwit => if witness0_sighash::input_exists(tx, tr.args) {
            Ok(witness0_sighash::spec_sighash(tx, tr.args))
        } else {
            Err(SigningErrorType::InvalidParams)
        },
        SigningMethod::Taproot => if taproot1_sighash::preimage_defined(tx, tr) {
            Ok(taproot1_sighash::spec_sighash(tx, tr))
        } else {
            Err(SigningErrorType::InvalidParams)
        },
    }
}

/// The digest that a signature of the input that `tr` names commits to, by
/// the rules of `method`.
pub fn sighash_tx<Transaction: TransactionInterface>(
    tx: &Transaction,
    tr: &UtxoTaprootPreimageArgs,
    method: SigningMethod,
) -> (r: SigningResult<H256>)
    ensures
        match spec_sighash(tx.tx_view(), tr@, method) {
            Ok(digest) => r matches Ok(got) && got@ == digest,
            Err(kind) => r matches Err(e) && e.kind() == kind,
        },
{
    match method {
        SigningMethod::Legacy => LegacySighash::<Transaction>::sighash_tx(tx, &tr.args),
        SigningMethod::Segwit => Witness0Sighash::<Transaction>::sighash_tx(tx, &tr.args),
        SigningMethod::Taproot => Taproot1Sighash::<Transaction>::sighash_tx(tx, tr),
    }
}

} // verus!
