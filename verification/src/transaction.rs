//! The parts of a transaction, what a signature hash reads of a transaction,
//! and the consensus serialisation of both.

use vstd::prelude::*;
use crate::encode::{
    append, le_bytes_i64, le_bytes_u32, push_i64_le, push_u32_le, push_with_length_prefix,
    with_length_prefix,
};
use crate::hash::H256;
use crate::script::Script;

verus! {

/// The coin that an input spends: a transaction's hash and the index of one of its outputs.
#[derive(Debug)]
pub struct OutPoint {
    pub hash: H256,
    pub index: u32,
}

/// An input of a transaction.
#[derive(Debug)]
pub struct TransactionInput {
    pub previous_output: OutPoint,
    pub script_sig: Script,
    pub sequence: u32,
    pub witness: Vec<Vec<u8>>,
}

/// An output of a transaction.
#[derive(Debug)]
pub struct TransactionOutput {
    pub value: i64,
    pub script_pubkey: Script,
}

/// A transaction.
#[derive(Debug)]
pub struct Transaction {
    pub version: u32,
    pub inputs: Vec<TransactionInput>,
    pub outputs: Vec<TransactionOutput>,
    pub locktime: u32,
}

/// What a signature hash reads of an input: its outpoint and sequence number.
pub ghost struct InputView {
    pub hash: Seq<u8>,
    pub index: u32,
    pub sequence: u32,
}

/// What a signature hash reads of an output: its value and locking script.
pub ghost struct OutputView {
    pub value: i64,
    pub script_pubkey: Seq<u8>,
}

/// What a signature hash reads of a transaction.
pub ghost struct TransactionView {
    pub version: u32,
    pub inputs: Seq<InputView>,
    pub outputs: Seq<OutputView>,
    pub locktime: u32,
}

/// The 36 bytes of an input's outpoint: the hash, then the index, low byte first.
pub open spec fn outpoint_bytes(input: InputView) -> Seq<u8> {
    input.hash + le_bytes_u32(input.index)
}

/// An output's bytes: the value in eight bytes, then the script behind its length.
pub open spec fn output_bytes(output: OutputView) -> Seq<u8> {
    le_bytes_i64(output.value) + with_length_prefix(output.script_pubkey)
}

/// The outpoints of `inputs`, one after the other.
pub open spec fn prevouts_bytes(inputs: Seq<InputView>) -> Seq<u8>
    decreases inputs.len(),
{
    if inputs.len() == 0 {
        Seq::empty()
    } else {
        prevouts_bytes(inputs.drop_last()) + outpoint_bytes(inputs.last())
    }
}

/// The sequence numbers of `inputs`, four bytes each.
pub open spec fn sequences_bytes(inputs: Seq<InputView>) -> Seq<u8>
    decreases inputs.len(),
{
    if inputs.len() == 0 {
        Seq::empty()
    } else {
        sequences_bytes(inputs.drop_last()) + le_bytes_u32(inputs.last().sequence)
    }
}

/// The serialised `outputs`, one after the other.
pub open spec fn outputs_bytes(outputs: Seq<OutputView>) -> Seq<u8>
    decreases outputs.len(),
{
    if outputs.len() == 0 {
        Seq::empty()
    } else {
        outputs_bytes(outputs.drop_last()) + output_bytes(outputs.last())
    }
}

/// The spent amounts, eight bytes each.
pub open spec fn amounts_bytes(amounts: Seq<i64>) -> Seq<u8>
    decreases amounts.len(),
{
    if amounts.len() == 0 {
        Seq::empty()
    } else {
        amounts_bytes(amounts.drop_last()) + le_bytes_i64(amounts.last())
    }
}

/// The spent locking scripts, each behind its length.
pub open spec fn script_pubkeys_bytes(scripts: Seq<Seq<u8>>) -> Seq<u8>
    decreases scripts.len(),
{
    if scripts.len() == 0 {
        Seq::empty()
    } else {
        script_pubkeys_bytes(scripts.drop_last()) + with_length_prefix(scripts.last())
    }
}

/// The byte strings of a sequence of scripts.
pub open spec fn script_views(scripts: Seq<Script>) -> Seq<Seq<u8>> {
    Seq::new(scripts.len(), |i: int| scripts[i]@)
}

/// What a signature hash has to read of a transaction, whatever holds it.
pub trait TransactionInterface {
    /// What a signature hash reads of the transaction.
    spec fn tx_view(&self) -> TransactionView;

    /// The version of the transaction.
    fn version(&self) -> (version: u32)
        ensures
            version == self.tx_view().version,
    ;

    /// The lock time of the transaction.
    fn locktime(&self) -> (locktime: u32)
        ensures
            locktime == self.tx_view().locktime,
    ;

    /// The number of inputs.
    fn inputs_len(&self) -> (n: usize)
        ensures
            n == self.tx_view().inputs.len(),
    ;

    /// The number of outputs.
    fn outputs_len(&self) -> (n: usize)
        ensures
            n == self.tx_view().outputs.len(),
    ;

    /// The hash of the transaction whose output input `i` spends.
    fn input_prev_hash(&self, i: usize) -> (hash: H256)
        requires
            i < self.tx_view().inputs.len(),
        ensures
            hash@ == self.tx_view().inputs[i as int].hash,
    ;

    /// The index of the output that input `i` spends.
    fn input_prev_index(&self, i: usize) -> (index: u32)
        requires
            i < self.tx_view().inputs.len(),
        ensures
            index == self.tx_view().inputs[i as int].index,
    ;

    /// The sequence number of input `i`.
    fn input_sequence(&self, i: usize) -> (sequence: u32)
        requires
            i < self.tx_view().inputs.len(),
        ensures
            sequence == self.tx_view().inputs[i as int].sequence,
    ;

    /// The value of output `i`.
    fn output_value(&self, i: usize) -> (value: i64)
        requires
            i < self.tx_view().outputs.len(),
        ensures
            value == self.tx_view().outputs[i as int].value,
    ;

    /// The locking script of output `i`.
    fn output_script_pubkey(&self, i: usize) -> (script: &[u8])
        requires
            i < self.tx_view().outputs.len(),
        ensures
            script@ == self.tx_view().outputs[i as int].script_pubkey,
    ;
}

impl OutPoint {
    /// The 36 bytes of the outpoint: the hash, then the index, low byte first.
    pub open spec fn spec_serialize(&self) -> Seq<u8> {
        self.hash@ + le_bytes_u32(self.index)
    }

    /// Appends the outpoint's bytes.
    pub fn serialize_into(&self, dst: &mut Vec<u8>)
        ensures
            final(dst)@ == old(dst)@ + self.spec_serialize(),
    {
        append(dst, self.hash.as_slice());
        push_u32_le(dst, self.index);
        assert(dst@ =~= old(dst)@ + self.spec_serialize());
    }
}

impl View for TransactionInput {
    type V = InputView;

    open spec fn view(&self) -> InputView {
        InputView {
            hash: self.previous_output.hash@,
            index: self.previous_output.index,
            sequence: self.sequence,
        }
    }
}

impl View for TransactionOutput {
    type V = OutputView;

    open spec fn view(&self) -> OutputView {
        OutputView { value: self.value, script_pubkey: self.script_pubkey@ }
    }
}

impl TransactionOutput {
    /// The output's bytes: the value in eight bytes, then the script behind its length.
    pub open spec fn spec_serialize(&self) -> Seq<u8> {
        output_bytes(self@)
    }

    /// Appends the output's bytes.
    pub fn serialize_into(&self, dst: &mut Vec<u8>)
        ensures
            final(dst)@ == old(dst)@ + self.spec_serialize(),
    {
        push_i64_le(dst, self.value);
        push_with_length_prefix(dst, self.script_pubkey.bytes.as_slice());
        assert(dst@ =~= old(dst)@ + self.spec_serialize());
    }
}

impl View for Transaction {
    type V = TransactionView;

    open spec fn view(&self) -> TransactionView {
        TransactionView {
            version: self.version,
            inputs: Seq::new(self.inputs@.len(), |i: int| self.inputs@[i]@),
            outputs: Seq::new(self.outputs@.len(), |i: int| self.outputs@[i]@),
            locktime: self.locktime,
        }
    }
}

impl TransactionInterface for Transaction {
    open spec fn tx_view(&self) -> TransactionView {
        self@
    }

    fn version(&self) -> (version: u32) {
        self.version
    }

    fn locktime(&self) -> (locktime: u32) {
        self.locktime
    }

    fn inputs_len(&self) -> (n: usize) {
        self.inputs.len()
    }

    fn outputs_len(&self) -> (n: usize) {
        self.outputs.len()
    }

    fn input_prev_hash(&self, i: usize) -> (hash: H256) {
        self.inputs[i].previous_output.hash
    }

    fn input_prev_index(&self, i: usize) -> (index: u32) {
        self.inputs[i].previous_output.index
    }

    fn input_sequence(&self, i: usize) -> (sequence: u32) {
        self.inputs[i].sequence
    }

    fn output_value(&self, i: usize) -> (value: i64) {
        self.outputs[i].value
    }

    fn output_script_pubkey(&self, i: usize) -> (script: &[u8]) {
        self.outputs[i].script_pubkey.bytes.as_slice()
    }
}

/// Appends the outpoint of input `i`.
pub fn push_outpoint<T: TransactionInterface>(dst: &mut Vec<u8>, tx: &T, i: usize)
    requires
        i < tx.tx_view().inputs.len(),
    ensures
        final(dst)@ == old(dst)@ + outpoint_bytes(tx.tx_view().inputs[i as int]),
{
    let hash: H256 = tx.input_prev_hash(i);
    append(dst, hash.as_slice());
    push_u32_le(dst, tx.input_prev_index(i));
    assert(dst@ =~= old(dst)@ + outpoint_bytes(tx.tx_view().inputs[i as int]));
}

/// Appends output `i`.
pub fn push_output<T: TransactionInterface>(dst: &mut Vec<u8>, tx: &T, i: usize)
    requires
        i < tx.tx_view().outputs.len(),
    ensures
        final(dst)@ == old(dst)@ + output_bytes(tx.tx_view().outputs[i as int]),
{
    push_i64_le(dst, tx.output_value(i));
    push_with_length_prefix(dst, tx.output_script_pubkey(i));
    assert(dst@ =~= old(dst)@ + output_bytes(tx.tx_view().outputs[i as int]));
}

/// The outpoints of all inputs, serialised.
pub fn serialize_prevouts<T: TransactionInterface>(tx: &T) -> (out: Vec<u8>)
    ensures
        out@ == prevouts_bytes(tx.tx_view().inputs),
{
    let ghost inputs = tx.tx_view().inputs;
    let n: usize = tx.inputs_len();
    let mut out: Vec<u8> = Vec::new();
    let mut i: usize = 0;
    while i < n
        invariant
            i <= n,
            n == inputs.len(),
            inputs == tx.tx_view().inputs,
            out@ == prevouts_bytes(inputs.subrange(0, i as int)),
        decreases n - i,
    {
        push_outpoint(&mut out, tx, i);
        assert(inputs.subrange(0, i + 1).drop_last() =~= inputs.subrange(0, i as int));
        i += 1;
    }
    assert(inputs.subrange(0, i as int) =~= inputs);
    out
}

/// The sequence numbers of all inputs, serialised.
pub fn serialize_sequences<T: TransactionInterface>(tx: &T) -> (out: Vec<u8>)
    ensures
        out@ == sequences_bytes(tx.tx_view().inputs),
{
    let ghost inputs = tx.tx_view().inputs;
    let n: usize = tx.inputs_len();
    let mut out: Vec<u8> = Vec::new();
    let mut i: usize = 0;
    while i < n
        invariant
            i <= n,
            n == inputs.len(),
            inputs == tx.tx_view().inputs,
            out@ == sequences_bytes(inputs.subrange(0, i as int)),
        decreases n - i,
    {
        push_u32_le(&mut out, tx.input_sequence(i));
        assert(inputs.subrange(0, i + 1).drop_last() =~= inputs.subrange(0, i as int));
        i += 1;
    }
    assert(inputs.subrange(0, i as int) =~= inputs);
    out
}

/// All outputs, serialised.
pub fn serialize_outputs<T: TransactionInterface>(tx: &T) -> (out: Vec<u8>)
    ensures
        out@ == outputs_bytes(tx.tx_view().outputs),
{
    let ghost outputs = tx.tx_view().outputs;
    let n: usize = tx.outputs_len();
    let mut out: Vec<u8> = Vec::new();
    let mut i: usize = 0;
    while i < n
        invariant
            i <= n,
            n == outputs.len(),
            outputs == tx.tx_view().outputs,
            out@ == outputs_bytes(outputs.subrange(0, i as int)),
        decreases n - i,
    {
        push_output(&mut out, tx, i);
        assert(outputs.subrange(0, i + 1).drop_last() =~= outputs.subrange(0, i as int));
        i += 1;
    }
    assert(outputs.subrange(0, i as int) =~= outputs);
    out
}

/// The spent amounts, serialised.
pub fn serialize_amounts(amounts: &Vec<i64>) -> (out: Vec<u8>)
    ensures
        out@ == amounts_bytes(amounts@),
{
    let mut out: Vec<u8> = Vec::new();
    let mut i: usize = 0;
    while i < amounts.len()
        invariant
            i <= amounts@.len(),
            out@ == amounts_bytes(amounts@.subrange(0, i as int)),
        decreases amounts@.len() - i,
    {
        push_i64_le(&mut out, amounts[i]);
        assert(amounts@.subrange(0, i + 1).drop_last() =~= amounts@.subrange(0, i as int));
        i += 1;
    }
    assert(amounts@.subrange(0, i as int) =~= amounts@);
    out
}

/// The spent locking scripts, serialised.
pub fn serialize_script_pubkeys(scripts: &Vec<Script>) -> (out: Vec<u8>)
    ensures
        out@ == script_pubkeys_bytes(script_views(scripts@)),
{
    let ghost views = script_views(scripts@);
    let mut out: Vec<u8> = Vec::new();
    let mut i: usize = 0;
    while i < scripts.len()
        invariant
            i <= scripts@.len(),
            views == script_views(scripts@),
            out@ == script_pubkeys_bytes(views.subrange(0, i as int)),
        decreases scripts@.len() - i,
    {
        push_with_length_prefix(&mut out, scripts[i].bytes.as_slice());
        assert(views.subrange(0, i + 1).drop_last() =~= views.subrange(0, i as int));
        assert(views.subrange(0, i + 1).last() == scripts@[i as int]@);
        i += 1;
    }
    assert(views.subrange(0, i as int) =~= views);
    out
}

} // verus!
