//! The signature hash of an input that spends an output of before
//! segregated witness.

use vstd::prelude::*;
use crate::encode::{
    append, compact_size, le_bytes_i64, le_bytes_u32, push_compact_size, push_i64_le, push_u32_le,
    push_with_length_prefix, with_length_prefix,
};
use crate::error::{SigningError, SigningErrorType, SigningResult};
use crate::hash::H256;
use crate::sighash::SighashBase;
use crate::taproot1_sighash::{is_anyone_can_pay, PreimageArgsView, UtxoPreimageArgs};
use crate::transaction::{
    output_bytes, outpoint_bytes, outputs_bytes, push_outpoint, push_output, serialize_outputs,
    InputView, TransactionInterface, TransactionView,
};
use crate::witness0_sighash::{input_exists, is_no_outputs, is_single, sha256d, sha256d_digest};

verus! {

/// One input as the signature commits to it: its outpoint; the script code
/// if it is the signed input, else an empty script; its sequence number, or
/// zero if it is another input and the base type commits to one output or none.
pub open spec fn input_bytes(
    input: InputView,
    signed: bool,
    script_code: Seq<u8>,
    zero_sequence: bool,
) -> Seq<u8> {
    outpoint_bytes(input) + with_length_prefix(
        if signed {
            script_code
        } else {
            Seq::empty()
        },
    ) + le_bytes_u32(
        if !signed && zero_sequence {
            0u32
        } else {
            input.sequence
        },
    )
}

/// All inputs as the signature commits to them.
pub open spec fn inputs_bytes(
    inputs: Seq<InputView>,
    index: int,
    script_code: Seq<u8>,
    zero_sequence: bool,
) -> Seq<u8>
    decreases inputs.len(),
{
    if inputs.len() == 0 {
        Seq::empty()
    } else {
        inputs_bytes(inputs.drop_last(), index, script_code, zero_sequence) + input_bytes(
            inputs.last(),
            inputs.len() - 1 == index,
            script_code,
            zero_sequence,
        )
    }
}

/// An output that stands for nothing: the value -1 and an empty script.
pub open spec fn blank_output() -> Seq<u8> {
    le_bytes_i64(-1i64) + seq![0x00u8]
}

/// `n` outputs that stand for nothing.
pub open spec fn blank_outputs(n: nat) -> Seq<u8>
    decreases n,
{
    if n == 0 {
        Seq::empty()
    } else {
        blank_outputs((n - 1) as nat) + blank_output()
    }
}

/// The inputs with their count: the signed input alone under
/// anyone-can-pay, else all of them.
pub open spec fn inputs_part(tx: TransactionView, args: PreimageArgsView) -> Seq<u8> {
    let raw = args.sighash;
    let index = args.input_index;
    if is_anyone_can_pay(raw) {
        compact_size(1) + input_bytes(tx.inputs[index], true, args.script_pubkey, false)
    } else {
        compact_size(tx.inputs.len() as u64) + inputs_bytes(
            tx.inputs,
            index,
            args.script_pubkey,
            is_single(raw) || is_no_outputs(raw),
        )
    }
}

/// The outputs with their count: under `Single` the output at the input's
/// index behind as many blank ones as come before it; none for the base type
/// that commits to none; else all of them.
pub open spec fn outputs_part(tx: TransactionView, args: PreimageArgsView) -> Seq<u8> {
    let raw = args.sighash;
    let index = args.input_index;
    if is_single(raw) {
        compact_size((index + 1) as u64) + blank_outputs(index as nat) + output_bytes(
            tx.outputs[index],
        )
    } else if is_no_outputs(raw) {
        compact_size(0)
    } else {
        compact_size(tx.outputs.len() as u64) + outputs_bytes(tx.outputs)
    }
}

/// Whether the input is signed under `Single` and has no output at its index.
/// The digest is then the number one, whatever the transaction holds.
pub open spec fn single_without_output(tx: TransactionView, args: PreimageArgsView) -> bool {
    is_single(args.sighash) && args.input_index >= tx.outputs.len()
}

/// The bytes that are hashed for the signature of a legacy input: the
/// version, the inputs, the outputs, the lock time and the hash type.
pub open spec fn spec_preimage(tx: TransactionView, args: PreimageArgsView) -> Seq<u8> {
    le_bytes_u32(tx.version) + inputs_part(tx, args) + outputs_part(tx, args) + le_bytes_u32(
        tx.locktime,
    ) + le_bytes_u32(args.sighash)
}

/// The number one in 32 bytes, low byte first.
pub open spec fn one_hash() -> Seq<u8> {
    Seq::new(
        32,
        |i: int|
            if i == 0 {
                1u8
            } else {
                0u8
            },
    )
}

/// The signature hash of a legacy input.
pub open spec fn spec_sighash(tx: TransactionView, args: PreimageArgsView) -> Seq<u8> {
    if single_without_output(tx, args) {
        one_hash()
    } else {
        sha256d(spec_preimage(tx, args))
    }
}

/// The signature hash of inputs that spend outputs of before segregated
/// witness, over whatever holds the transaction.
pub struct LegacySighash<Transaction: TransactionInterface> {
    _phantom: core::marker::PhantomData<Transaction>,
}

fn push_input<T: TransactionInterface>(
    dst: &mut Vec<u8>,
    tx: &T,
    i: usize,
    signed: bool,
    script_code: &[u8],
    zero_sequence: bool,
)
    requires
        i < tx.tx_view().inputs.len(),
    ensures
        final(dst)@ == old(dst)@ + input_bytes(
            tx.tx_view().inputs[i as int],
            signed,
            script_code@,
            zero_sequence,
        ),
{
    push_outpoint(dst, tx, i);
    if signed {
        push_with_length_prefix(dst, script_code);
    } else {
        let empty: Vec<u8> = Vec::new();
        push_with_length_prefix(dst, empty.as_slice());
        assert(empty@ =~= Seq::<u8>::empty());
    }
    if !signed && zero_sequence {
        push_u32_le(dst, 0);
    } else {
        push_u32_le(dst, tx.input_sequence(i));
    }
    assert(dst@ =~= old(dst)@ + input_bytes(
        tx.tx_view().inputs[i as int],
        signed,
        script_code@,
        zero_sequence,
    ));
}

impl<Transaction: TransactionInterface> LegacySighash<Transaction> {
    /// The bytes that are hashed for the signature of the input that `args`
    /// names. Fails with `InvalidParams` where the transaction has no such
    /// input, or the input is signed under `Single` and has no output at its
    /// index, for which there is no preimage.
    pub fn preimage(tx: &Transaction, args: &UtxoPreimageArgs) -> (r: SigningResult<Vec<u8>>)
        ensures
            r is Ok <==> input_exists(tx.tx_view(), args@) && !single_without_output(
                tx.tx_view(),
                args@,
            ),
            r matches Ok(bytes) ==> bytes@ == spec_preimage(tx.tx_view(), args@),
            r matches Err(e) ==> e.kind() == SigningErrorType::InvalidParams,
    {
        let ghost txv = tx.tx_view();
        let index: usize = args.input_index;
        let inputs_len: usize = tx.inputs_len();
        let outputs_len: usize = tx.outputs_len();
        if index >= inputs_len {
            return Err(
                SigningError::new(SigningErrorType::InvalidParams, "No input at the given index"),
            );
        }
        let raw: u32 = args.sighash_ty.raw_sighash();
        let base = args.sighash_ty.base_type();
        let anyone_can_pay: bool = args.sighash_ty.anyone_can_pay();
        let single: bool = match base {
            SighashBase::Single => true,
            _ => false,
        };
        let no_outputs: bool = match base {
            SighashBase::NoOutputs => true,
            _ => false,
        };
        if single && index >= outputs_len {
            return Err(
                SigningError::new(
                    SigningErrorType::InvalidParams,
                    "No output at the index of the input",
                ),
            );
        }
        let script_code: &[u8] = args.script_pubkey.bytes.as_slice();

        let mut inputs: Vec<u8> = Vec::new();
        if anyone_can_pay {
            push_compact_size(&mut inputs, 1);
            push_input(&mut inputs, tx, index, true, script_code, false);
        } else {
            push_compact_size(&mut inputs, inputs_len as u64);
            let ghost head = inputs@;
            let zero_sequence: bool = single || no_outputs;
            let mut i: usize = 0;
            while i < inputs_len
                invariant
                    i <= inputs_len,
                    inputs_len == txv.inputs.len(),
                    txv == tx.tx_view(),
                    script_code@ == args.script_pubkey@,
                    inputs@ == head + inputs_bytes(
                        txv.inputs.subrange(0, i as int),
                        index as int,
                        script_code@,
                        zero_sequence,
                    ),
                decreases inputs_len - i,
            {
                let ghost before = inputs@;
                push_input(&mut inputs, tx, i, i == index, script_code, zero_sequence);
                proof {
                    let next = txv.inputs.subrange(0, i + 1);
                    assert(next.drop_last() =~= txv.inputs.subrange(0, i as int));
                    assert(next.last() == txv.inputs[i as int]);
                    assert(inputs@ =~= head + inputs_bytes(
                        next,
                        index as int,
                        script_code@,
                        zero_sequence,
                    ));
                }
                i += 1;
            }
            assert(txv.inputs.subrange(0, i as int) =~= txv.inputs);
        }
        assert(inputs@ =~= inputs_part(txv, args@));

        let mut outputs: Vec<u8> = Vec::new();
        if single {
            push_compact_size(&mut outputs, index as u64 + 1);
            let ghost head = outputs@;
            let mut i: usize = 0;
            while i < index
                invariant
                    i <= index,
                    outputs@ == head + blank_outputs(i as nat),
                decreases index - i,
            {
                push_i64_le(&mut outputs, -1);
                outputs.push(0x00u8);
                assert(outputs@ =~= head + blank_outputs((i + 1) as nat));
                i += 1;
            }
            push_output(&mut outputs, tx, index);
        } else if no_outputs {
            push_compact_size(&mut outputs, 0);
        } else {
            push_compact_size(&mut outputs, outputs_len as u64);
            let all = serialize_outputs(tx);
            append(&mut outputs, all.as_slice());
        }
        assert(outputs@ =~= outputs_part(txv, args@));

        let mut stream: Vec<u8> = Vec::new();
        push_u32_le(&mut stream, tx.version());
        assert(stream@ =~= le_bytes_u32(txv.version));
        append(&mut stream, inputs.as_slice());
        append(&mut stream, outputs.as_slice());
        push_u32_le(&mut stream, tx.locktime());
        push_u32_le(&mut stream, raw);
        Ok(stream)
    }

    /// The signature hash of the input that `args` names: SHA-256 of SHA-256
    /// of its preimage, or the number one where the input is signed under
    /// `Single` and has no output at its index. Fails with `InvalidParams`
    /// where the transaction has no such input.
    pub fn sighash_tx(tx: &Transaction, args: &UtxoPreimageArgs) -> (r: SigningResult<H256>)
        ensures
            r is Ok <==> input_exists(tx.tx_view(), args@),
            r matches Ok(digest) ==> digest@ == spec_sighash(tx.tx_view(), args@),
            r matches Err(e) ==> e.kind() == SigningErrorType::InvalidParams,
    {
        if args.input_index >= tx.inputs_len() {
            return Err(
                SigningError::new(SigningErrorType::InvalidParams, "No input at the given index"),
            );
        }
        let single: bool = match args.sighash_ty.base_type() {
            SighashBase::Single => true,
            _ => false,
        };
        if single && args.input_index >= tx.outputs_len() {
            let mut one: H256 = [0u8; 32];
            one[0] = 1;
            assert(one@ =~= one_hash());
            return Ok(one);
        }
        match Self::preimage(tx, args) {
            Ok(bytes) => Ok(sha256d_digest(bytes.as_slice())),
            Err(e) => Err(e),
        }
    }
}

} // verus!
