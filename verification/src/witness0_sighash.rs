//! The signature hash of an input that spends a witness program of version 0.

use vstd::prelude::*;
use crate::encode::{
    append, le_bytes_i64, le_bytes_u32, push_i64_le, push_u32_le, push_with_length_prefix,
    with_length_prefix,
};
use crate::error::{SigningError, SigningErrorType, SigningResult};
use crate::hash::{sha256, sha256_digest, H256};
use crate::sighash::{base_of, SighashBase};
use crate::taproot1_sighash::{is_anyone_can_pay, PreimageArgsView, UtxoPreimageArgs};
use crate::transaction::{
    output_bytes, outpoint_bytes, outputs_bytes, prevouts_bytes, push_outpoint, push_output,
    sequences_bytes, serialize_outputs, serialize_prevouts, serialize_sequences,
    TransactionInterface, TransactionView,
};

verus! {

/// SHA-256 of SHA-256.
pub open spec fn sha256d(data: Seq<u8>) -> Seq<u8> {
    sha256(sha256(data))
}

/// Thirty-two zero bytes.
pub open spec fn zero_hash() -> Seq<u8> {
    Seq::new(32, |i: int| 0u8)
}

/// SHA-256 of SHA-256 of `data`.
pub fn sha256d_digest(data: &[u8]) -> (digest: H256)
    ensures
        digest@ == sha256d(data@),
{
    let first: H256 = sha256_digest(data);
    sha256_digest(first.as_slice())
}

/// Whether the base type is `Single`.
pub open spec fn is_single(raw: u32) -> bool {
    base_of(raw) == Some(SighashBase::Single)
}

/// Whether the base type is the one that commits to no output.
pub open spec fn is_no_outputs(raw: u32) -> bool {
    base_of(raw) == Some(SighashBase::NoOutputs)
}

/// The digest over all outpoints; zero under anyone-can-pay.
pub open spec fn hash_prevouts(tx: TransactionView, raw: u32) -> Seq<u8> {
    if is_anyone_can_pay(raw) {
        zero_hash()
    } else {
        sha256d(prevouts_bytes(tx.inputs))
    }
}

/// The digest over all sequence numbers; zero under anyone-can-pay and for
/// the base types that commit to one output or none.
pub open spec fn hash_sequence(tx: TransactionView, raw: u32) -> Seq<u8> {
    if is_anyone_can_pay(raw) || is_single(raw) || is_no_outputs(raw) {
        zero_hash()
    } else {
        sha256d(sequences_bytes(tx.inputs))
    }
}

/// The digest over the outputs: over one under `Single` where the input has
/// an output at its index, over none and zero where it has not or the base
/// type commits to no output, else over all.
pub open spec fn hash_outputs(tx: TransactionView, raw: u32, index: int) -> Seq<u8> {
    if is_single(raw) {
        if index < tx.outputs.len() {
            sha256d(output_bytes(tx.outputs[index]))
        } else {
            zero_hash()
        }
    } else if is_no_outputs(raw) {
        zero_hash()
    } else {
        sha256d(outputs_bytes(tx.outputs))
    }
}

/// Whether the arguments name an input of the transaction.
pub open spec fn input_exists(tx: TransactionView, args: PreimageArgsView) -> bool {
    0 <= args.input_index < tx.inputs.len()
}

/// The bytes that are hashed for the signature of an input of witness
/// version 0: the version, the digests over outpoints and sequence numbers,
/// the input's outpoint, script code, amount and sequence number, the digest
/// over the outputs, the lock time and the hash type.
pub open spec fn spec_preimage(tx: TransactionView, args: PreimageArgsView) -> Seq<u8> {
    let raw = args.sighash;
    let index = args.input_index;
    le_bytes_u32(tx.version) + hash_prevouts(tx, raw) + hash_sequence(tx, raw) + outpoint_bytes(
        tx.inputs[index],
    ) + with_length_prefix(args.script_pubkey) + le_bytes_i64(args.amount) + le_bytes_u32(
        tx.inputs[index].sequence,
    ) + hash_outputs(tx, raw, index) + le_bytes_u32(tx.locktime) + le_bytes_u32(raw)
}

/// The signature hash of an input of witness version 0.
pub open spec fn spec_sighash(tx: TransactionView, args: PreimageArgsView) -> Seq<u8> {
    sha256d(spec_preimage(tx, args))
}

/// The signature hash of inputs that spend witness programs of version 0,
/// over whatever holds the transaction.
pub struct Witness0Sighash<Transaction: TransactionInterface> {
    _phantom: core::marker::PhantomData<Transaction>,
}

fn zeros() -> (out: H256)
    ensures
        out@ == zero_hash(),
{
    let out: H256 = [0u8; 32];
    assert(out@ =~= zero_hash());
    out
}

impl<Transaction: TransactionInterface> Witness0Sighash<Transaction> {
    /// The bytes that are hashed for the signature of the input that `args`
    /// names. Fails with `InvalidParams` where the transaction has no such input.
    pub fn preimage(tx: &Transaction, args: &UtxoPreimageArgs) -> (r: SigningResult<Vec<u8>>)
        ensures
            r is Ok <==> input_exists(tx.tx_view(), args@),
            r matches Ok(bytes) ==> bytes@ == spec_preimage(tx.tx_view(), args@),
            r matches Err(e) ==> e.kind() == SigningErrorType::InvalidParams,
    {
        let index: usize = args.input_index;
        if index >= tx.inputs_len() {
            return Err(
                SigningError::new(SigningErrorType::InvalidParams, "No input at the given index"),
            );
        }
        let raw: u32 = args.sighash_ty.raw_sighash();
        let base = args.sighash_ty.base_type();
        let anyone_can_pay: bool = args.sighash_ty.anyone_can_pay();
        let single: bool = match base {
            SighashBase::Single => true,
            _ => false,
        };
        let no_outputs: bool = match base {
            SighashBase::NoOutputs => true,
            _ => false,
        };

        let prevouts_digest: H256 = if anyone_can_pay {
            zeros()
        } else {
            sha256d_digest(serialize_prevouts(tx).as_slice())
        };
        let sequence_digest: H256 = if anyone_can_pay || single || no_outputs {
            zeros()
        } else {
            sha256d_digest(serialize_sequences(tx).as_slice())
        };
        let outputs_digest: H256 = if single {
            if index < tx.outputs_len() {
                let mut output: Vec<u8> = Vec::new();
                push_output(&mut output, tx, index);
                assert(output@ =~= output_bytes(tx.tx_view().outputs[index as int]));
                sha256d_digest(output.as_slice())
            } else {
                zeros()
            }
        } else if no_outputs {
            zeros()
        } else {
            sha256d_digest(serialize_outputs(tx).as_slice())
        };

        let mut stream: Vec<u8> = Vec::new();
        push_u32_le(&mut stream, tx.version());
        assert(stream@ =~= le_bytes_u32(tx.tx_view().version));
        append(&mut stream, prevouts_digest.as_slice());
        append(&mut stream, sequence_digest.as_slice());
        push_outpoint(&mut stream, tx, index);
        push_with_length_prefix(&mut stream, args.script_pubkey.bytes.as_slice());
        push_i64_le(&mut stream, args.amount);
        push_u32_le(&mut stream, tx.input_sequence(index));
        append(&mut stream, outputs_digest.as_slice());
        push_u32_le(&mut stream, tx.locktime());
        push_u32_le(&mut stream, raw);
        Ok(stream)
    }

    /// The signature hash of the input that `args` names: SHA-256 of SHA-256
    /// of its preimage. Fails with `InvalidParams` where the transaction has
    /// no such input.
    pub fn sighash_tx(tx: &Transaction, args: &UtxoPreimageArgs) -> (r: SigningResult<H256>)
        ensures
            r is Ok <==> input_exists(tx.tx_view(), args@),
            r matches Ok(digest) ==> digest@ == spec_sighash(tx.tx_view(), args@),
            r matches Err(e) ==> e.kind() == SigningErrorType::InvalidParams,
    {
        match Self::preimage(tx, args) {
            Ok(bytes) => Ok(sha256d_digest(bytes.as_slice())),
            Err(e) => Err(e),
        }
    }
}

} // verus!
