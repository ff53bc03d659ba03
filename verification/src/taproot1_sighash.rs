//! The signature hash of a taproot input, by key path or by script path.

use vstd::prelude::*;
use crate::encode::{
    append, le_bytes_i64, le_bytes_u32, push_i64_le, push_u32_le, push_with_length_prefix,
    with_length_prefix,
};
use crate::error::{SigningError, SigningErrorType, SigningResult};
use crate::hash::{sha256, sha256_digest, tag_tap_sighash, tagged_hash, tagged_hash_digest, Tag, H256};
use crate::script::Script;
use crate::sighash::{base_of, is_taproot_sighash, SighashBase, SighashType};
use crate::transaction::{
    amounts_bytes, output_bytes, outpoint_bytes, outputs_bytes, prevouts_bytes, push_outpoint,
    push_output, script_pubkeys_bytes, script_views, sequences_bytes, serialize_amounts,
    serialize_outputs, serialize_prevouts, serialize_script_pubkeys, serialize_sequences,
    TransactionInterface, TransactionView,
};

verus! {

/// What the signature hash of one input takes besides the transaction.
#[derive(Debug)]
pub struct UtxoPreimageArgs {
    /// The index of the input that is signed.
    pub input_index: usize,
    /// The script that the signature commits to: for a legacy input and one
    /// of witness version 0, the script code.
    pub script_pubkey: Script,
    /// The amount of the output that the input spends.
    pub amount: i64,
    /// For a script-path spend, the leaf's hash and the position of the last
    /// executed code separator.
    pub leaf_hash_code_separator: Option<(H256, u32)>,
    /// The signature hash type.
    pub sighash_ty: SighashType,
}

/// The arguments of a taproot signature hash: those of the input, and the amounts
/// and locking scripts of the outputs that all inputs spend, in input order.
#[derive(Debug)]
pub struct UtxoTaprootPreimageArgs {
    pub args: UtxoPreimageArgs,
    pub spent_amounts: Vec<i64>,
    pub spent_script_pubkeys: Vec<Script>,
}

/// The arguments of one input as plain values.
pub ghost struct PreimageArgsView {
    pub input_index: int,
    pub script_pubkey: Seq<u8>,
    pub amount: i64,
    pub leaf_hash_code_separator: Option<(Seq<u8>, u32)>,
    pub sighash: u32,
}

/// The arguments of a taproot signature hash as plain values.
pub ghost struct TaprootArgsView {
    pub args: PreimageArgsView,
    pub spent_amounts: Seq<i64>,
    pub spent_script_pubkeys: Seq<Seq<u8>>,
}

impl View for UtxoPreimageArgs {
    type V = PreimageArgsView;

    open spec fn view(&self) -> PreimageArgsView {
        PreimageArgsView {
            input_index: self.input_index as int,
            script_pubkey: self.script_pubkey@,
            amount: self.amount,
            leaf_hash_code_separator: match self.leaf_hash_code_separator {
                Some((hash, separator)) => Some((hash@, separator)),
                None => None,
            },
            sighash: self.sighash_ty.spec_raw(),
        }
    }
}

impl View for UtxoTaprootPreimageArgs {
    type V = TaprootArgsView;

    open spec fn view(&self) -> TaprootArgsView {
        TaprootArgsView {
            args: self.args@,
            spent_amounts: self.spent_amounts@,
            spent_script_pubkeys: script_views(self.spent_script_pubkeys@),
        }
    }
}

/// The position that stands for "no code separator was executed".
pub const NO_CODE_SEPARATOR: u32 = 0xffff_ffff;

/// The signature hash of taproot inputs, over whatever holds the transaction.
pub struct Taproot1Sighash<Transaction: TransactionInterface> {
    _phantom: core::marker::PhantomData<Transaction>,
}

/// Whether the anyone-can-pay bit, `0x80`, is set.
pub open spec fn is_anyone_can_pay(raw: u32) -> bool {
    (raw / 128) % 2 == 1
}

/// Whether the inputs name a preimage: the hash type is one of taproot's, the
/// input exists, every input has its spent amount and script, and under `Single`
/// the input has an output at its own index.
pub open spec fn preimage_defined(tx: TransactionView, tr: TaprootArgsView) -> bool {
    &&& is_taproot_sighash(tr.args.sighash)
    &&& 0 <= tr.args.input_index < tx.inputs.len()
    &&& tr.args.input_index <= u32::MAX
    &&& tr.spent_amounts.len() == tx.inputs.len()
    &&& tr.spent_script_pubkeys.len() == tx.inputs.len()
    &&& (base_of(tr.args.sighash) == Some(SighashBase::Single) ==> tr.args.input_index
        < tx.outputs.len())
}

/// The epoch byte, the hash type, the version and the lock time.
pub open spec fn preimage_head(tx: TransactionView, tr: TaprootArgsView) -> Seq<u8> {
    seq![0u8, tr.args.sighash as u8] + le_bytes_u32(tx.version) + le_bytes_u32(tx.locktime)
}

/// The digests over all inputs: outpoints, spent amounts, spent scripts and
/// sequence numbers. Absent under anyone-can-pay.
pub open spec fn preimage_inputs_commitment(tx: TransactionView, tr: TaprootArgsView) -> Seq<u8> {
    if is_anyone_can_pay(tr.args.sighash) {
        Seq::empty()
    } else {
        sha256(prevouts_bytes(tx.inputs)) + sha256(amounts_bytes(tr.spent_amounts)) + sha256(
            script_pubkeys_bytes(tr.spent_script_pubkeys),
        ) + sha256(sequences_bytes(tx.inputs))
    }
}

/// Whether the base type commits to all outputs.
pub open spec fn commits_to_all_outputs(raw: u32) -> bool {
    base_of(raw) == Some(SighashBase::UseDefault) || base_of(raw) == Some(SighashBase::All)
}

/// The digest over all outputs, where the base type commits to them.
pub open spec fn preimage_outputs_commitment(tx: TransactionView, tr: TaprootArgsView) -> Seq<u8> {
    if commits_to_all_outputs(tr.args.sighash) {
        sha256(outputs_bytes(tx.outputs))
    } else {
        Seq::empty()
    }
}

/// The spend type: bit 1 for a script-path spend, bit 0 for an annex, which is never there.
pub open spec fn spend_type(tr: TaprootArgsView) -> u8 {
    if tr.args.leaf_hash_code_separator is Some {
        2u8
    } else {
        0u8
    }
}

/// What stands for the signed input: under anyone-can-pay its outpoint, spent
/// amount, spent script and sequence number; else its index alone.
pub open spec fn preimage_input_part(tx: TransactionView, tr: TaprootArgsView) -> Seq<u8> {
    let index = tr.args.input_index;
    if is_anyone_can_pay(tr.args.sighash) {
        outpoint_bytes(tx.inputs[index]) + le_bytes_i64(tr.spent_amounts[index])
            + with_length_prefix(tr.spent_script_pubkeys[index]) + le_bytes_u32(
            tx.inputs[index].sequence,
        )
    } else {
        le_bytes_u32(index as u32)
    }
}

/// Under `Single`, the digest of the output at the input's own index.
pub open spec fn preimage_single_output(tx: TransactionView, tr: TaprootArgsView) -> Seq<u8> {
    if base_of(tr.args.sighash) == Some(SighashBase::Single) {
        sha256(output_bytes(tx.outputs[tr.args.input_index]))
    } else {
        Seq::empty()
    }
}

/// For a script-path spend: the leaf hash, the key version 0 and the code
/// separator position.
pub open spec fn preimage_leaf_part(tr: TaprootArgsView) -> Seq<u8> {
    match tr.args.leaf_hash_code_separator {
        Some((leaf_hash, separator)) => leaf_hash + seq![0u8] + le_bytes_u32(separator),
        None => Seq::empty(),
    }
}

/// The bytes that are hashed for the signature of one taproot input.
pub open spec fn spec_preimage(tx: TransactionView, tr: TaprootArgsView) -> Seq<u8> {
    preimage_head(tx, tr) + preimage_inputs_commitment(tx, tr) + preimage_outputs_commitment(
        tx,
        tr,
    ) + seq![spend_type(tr)] + preimage_input_part(tx, tr) + preimage_single_output(tx, tr)
        + preimage_leaf_part(tr)
}

/// The signature hash of one taproot input.
pub open spec fn spec_sighash(tx: TransactionView, tr: TaprootArgsView) -> Seq<u8> {
    tagged_hash(tag_tap_sighash(), spec_preimage(tx, tr))
}

/// The signature hash reads nothing but the views: transactions and
/// arguments that agree in version, lock time, outpoints, sequence numbers,
/// outputs, input index, hash type, leaf data and spent outputs have the same
/// preimage and the same digest, and fail on the same inputs. Two calls on
/// the same data give the same bytes.
pub proof fn lemma_sighash_deterministic<A: TransactionInterface, B: TransactionInterface>(
    tx1: &A,
    tr1: &UtxoTaprootPreimageArgs,
    tx2: &B,
    tr2: &UtxoTaprootPreimageArgs,
)
    requires
        tx1.tx_view().version == tx2.tx_view().version,
        tx1.tx_view().locktime == tx2.tx_view().locktime,
        tx1.tx_view().inputs =~= tx2.tx_view().inputs,
        tx1.tx_view().outputs =~= tx2.tx_view().outputs,
        tr1@.args == tr2@.args,
        tr1@.spent_amounts =~= tr2@.spent_amounts,
        tr1@.spent_script_pubkeys =~= tr2@.spent_script_pubkeys,
    ensures
        preimage_defined(tx1.tx_view(), tr1@) == preimage_defined(tx2.tx_view(), tr2@),
        spec_preimage(tx1.tx_view(), tr1@) == spec_preimage(tx2.tx_view(), tr2@),
        spec_sighash(tx1.tx_view(), tr1@) == spec_sighash(tx2.tx_view(), tr2@),
{
    assert(tx1.tx_view() == tx2.tx_view());
    assert(tr1@ == tr2@);
}

/// The hash type is the second byte of the preimage: two signature hash types
/// of taproot that differ give different preimages for the same transaction.
pub proof fn lemma_preimage_commits_to_hash_type(
    tx: TransactionView,
    tr1: TaprootArgsView,
    tr2: TaprootArgsView,
)
    requires
        is_taproot_sighash(tr1.args.sighash),
        is_taproot_sighash(tr2.args.sighash),
        tr1.args.sighash != tr2.args.sighash,
    ensures
        spec_preimage(tx, tr1)[1] == tr1.args.sighash,
        spec_preimage(tx, tr2)[1] == tr2.args.sighash,
        spec_preimage(tx, tr1) != spec_preimage(tx, tr2),
{
    assert(preimage_head(tx, tr1)[1] == tr1.args.sighash as u8);
    assert(preimage_head(tx, tr2)[1] == tr2.args.sighash as u8);
}

/// The index of the signed input stands in the preimage exactly where the hash
/// type is not anyone-can-pay: there the input's part is the index's four
/// bytes, and under anyone-can-pay it is the outpoint, amount, script and
/// sequence number, which are at least 17 bytes.
pub proof fn lemma_input_index_presence(tx: TransactionView, tr: TaprootArgsView)
    requires
        preimage_defined(tx, tr),
    ensures
        !is_anyone_can_pay(tr.args.sighash) ==> preimage_input_part(tx, tr) == le_bytes_u32(
            tr.args.input_index as u32,
        ),
        is_anyone_can_pay(tr.args.sighash) ==> preimage_input_part(tx, tr).len() >= 17,
        (preimage_input_part(tx, tr) == le_bytes_u32(tr.args.input_index as u32))
            <==> !is_anyone_can_pay(tr.args.sighash),
{
    let index = tr.args.input_index;
    assert(le_bytes_u32(index as u32).len() == 4);
    assert(le_bytes_u32(tx.inputs[index].index).len() == 4);
    assert(le_bytes_i64(tr.spent_amounts[index]).len() == 8);
    assert(with_length_prefix(tr.spent_script_pubkeys[index]).len() >= 1);
}

impl<Transaction: TransactionInterface> Taproot1Sighash<Transaction> {
    /// The bytes that are hashed for the signature of the input that `tr` names.
    /// Fails with `InvalidParams` where `preimage_defined` does not hold.
    pub fn preimage(tx: &Transaction, tr: &UtxoTaprootPreimageArgs) -> (r: SigningResult<Vec<u8>>)
        ensures
            r is Ok <==> preimage_defined(tx.tx_view(), tr@),
            r matches Ok(bytes) ==> bytes@ == spec_preimage(tx.tx_view(), tr@),
            r matches Err(e) ==> e.kind() == SigningErrorType::InvalidParams,
    {
        let ghost txv = tx.tx_view();
        let ghost trv = tr@;
        let raw_sighash: u8 = match tr.args.sighash_ty.serialize_as_taproot() {
            Ok(b) => b,
            Err(e) => {
                return Err(e);
            },
        };
        let index: usize = tr.args.input_index;
        let inputs_len: usize = tx.inputs_len();
        let outputs_len: usize = tx.outputs_len();
        if index >= inputs_len || index > 0xffff_ffff {
            return Err(
                SigningError::new(SigningErrorType::InvalidParams, "No input at the given index"),
            );
        }
        if tr.spent_amounts.len() != inputs_len || tr.spent_script_pubkeys.len() != inputs_len {
            return Err(
                SigningError::new(
                    SigningErrorType::InvalidParams,
                    "Every input needs the amount and script it spends",
                ),
            );
        }
        let base = tr.args.sighash_ty.base_type();
        let anyone_can_pay = tr.args.sighash_ty.anyone_can_pay();
        let single = match base {
            SighashBase::Single => true,
            _ => false,
        };
        if single && index >= outputs_len {
            return Err(
                SigningError::new(
                    SigningErrorType::InvalidParams,
                    "No output at the index of the input",
                ),
            );
        }
        assert(preimage_defined(txv, trv));

        let mut stream: Vec<u8> = Vec::new();
        stream.push(0u8);
        stream.push(raw_sighash);
        push_u32_le(&mut stream, tx.version());
        push_u32_le(&mut stream, tx.locktime());
        assert(stream@ =~= preimage_head(txv, trv));

        let mut inputs_commitment: Vec<u8> = Vec::new();
        if !anyone_can_pay {
            let prevouts = serialize_prevouts(tx);
            let amounts = serialize_amounts(&tr.spent_amounts);
            let scripts = serialize_script_pubkeys(&tr.spent_script_pubkeys);
            let sequences = serialize_sequences(tx);
            append(&mut inputs_commitment, sha256_digest(prevouts.as_slice()).as_slice());
            append(&mut inputs_commitment, sha256_digest(amounts.as_slice()).as_slice());
            append(&mut inputs_commitment, sha256_digest(scripts.as_slice()).as_slice());
            append(&mut inputs_commitment, sha256_digest(sequences.as_slice()).as_slice());
        }
        assert(inputs_commitment@ =~= preimage_inputs_commitment(txv, trv));
        append(&mut stream, inputs_commitment.as_slice());

        let mut outputs_commitment: Vec<u8> = Vec::new();
        let all_outputs = match base {
            SighashBase::UseDefault => true,
            SighashBase::All => true,
            _ => false,
        };
        if all_outputs {
            let outputs = serialize_outputs(tx);
            append(&mut outputs_commitment, sha256_digest(outputs.as_slice()).as_slice());
        }
        assert(outputs_commitment@ =~= preimage_outputs_commitment(txv, trv));
        append(&mut stream, outputs_commitment.as_slice());

        let mut spend: Vec<u8> = Vec::new();
        if tr.args.leaf_hash_code_separator.is_some() {
            spend.push(2u8);
        } else {
            spend.push(0u8);
        }
        assert(spend@ =~= seq![spend_type(trv)]);
        append(&mut stream, spend.as_slice());

        let mut input_part: Vec<u8> = Vec::new();
        if anyone_can_pay {
            push_outpoint(&mut input_part, tx, index);
            push_i64_le(&mut input_part, tr.spent_amounts[index]);
            assert(trv.spent_script_pubkeys[index as int] == tr.spent_script_pubkeys@[index as int]@);
            push_with_length_prefix(&mut input_part, tr.spent_script_pubkeys[index].bytes.as_slice());
            push_u32_le(&mut input_part, tx.input_sequence(index));
        } else {
            push_u32_le(&mut input_part, index as u32);
        }
        assert(input_part@ =~= preimage_input_part(txv, trv));
        append(&mut stream, input_part.as_slice());

        let mut single_output: Vec<u8> = Vec::new();
        if single {
            let mut output: Vec<u8> = Vec::new();
            push_output(&mut output, tx, index);
            assert(output@ =~= output_bytes(txv.outputs[index as int]));
            append(&mut single_output, sha256_digest(output.as_slice()).as_slice());
        }
        assert(single_output@ =~= preimage_single_output(txv, trv));
        append(&mut stream, single_output.as_slice());

        let mut leaf_part: Vec<u8> = Vec::new();
        match &tr.args.leaf_hash_code_separator {
            Some((leaf_hash, separator)) => {
                append(&mut leaf_part, leaf_hash.as_slice());
                leaf_part.push(0u8);
                push_u32_le(&mut leaf_part, *separator);
            },
            None => {},
        }
        assert(leaf_part@ =~= preimage_leaf_part(trv));
        append(&mut stream, leaf_part.as_slice());
        Ok(stream)
    }

    /// The signature hash of the input that `tr` names: the tagged hash of its
    /// preimage. Fails with `InvalidParams` where `preimage_defined` does not hold.
    pub fn sighash_tx(tx: &Transaction, tr: &UtxoTaprootPreimageArgs) -> (r: SigningResult<H256>)
        ensures
            r is Ok <==> preimage_defined(tx.tx_view(), tr@),
            r matches Ok(digest) ==> digest@ == spec_sighash(tx.tx_view(), tr@),
            r matches Err(e) ==> e.kind() == SigningErrorType::InvalidParams,
    {
        match Self::preimage(tx, tr) {
            Ok(bytes) => Ok(tagged_hash_digest(Tag::TapSighash, bytes.as_slice())),
            Err(e) => Err(e),
        }
    }
}

} // verus!
