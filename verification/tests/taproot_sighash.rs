use tw_bitcoin::error::SigningErrorType;
use tw_bitcoin::script::Script;
use tw_bitcoin::sighash::{SighashBase, SighashType};
use tw_bitcoin::taproot1_sighash::{
    Taproot1Sighash, UtxoPreimageArgs, UtxoTaprootPreimageArgs, NO_CODE_SEPARATOR,
};
use tw_bitcoin::transaction::{
    serialize_amounts, serialize_outputs, serialize_prevouts, serialize_script_pubkeys,
    serialize_sequences, OutPoint, Transaction, TransactionInput, TransactionOutput,
};

const HASH_TYPES: [u32; 7] = [0x00, 0x01, 0x02, 0x03, 0x81, 0x82, 0x83];

fn script(bytes: &[u8]) -> Script {
    Script { bytes: bytes.to_vec() }
}

fn input(n: u8, index: u32, sequence: u32) -> TransactionInput {
    TransactionInput {
        previous_output: OutPoint { hash: [n; 32], index },
        script_sig: Script::new(),
        sequence,
        witness: Vec::new(),
    }
}

fn p2tr(n: u8) -> Vec<u8> {
    let mut s = vec![0x51, 0x20];
    s.extend_from_slice(&[n; 32]);
    s
}

fn transaction() -> Transaction {
    Transaction {
        version: 2,
        inputs: vec![input(0xa1, 0, 0xffff_ffff), input(0xb2, 7, 0xffff_fffd), input(0xc3, 1, 5)],
        outputs: vec![
            TransactionOutput { value: 40_000, script_pubkey: script(&p2tr(0x01)) },
            TransactionOutput { value: 25_000, script_pubkey: script(&[0x00, 0x14, 9, 9, 9, 9, 9, 9, 9, 9, 9, 9, 9, 9, 9, 9, 9, 9, 9, 9, 9, 9]) },
            TransactionOutput { value: 0, script_pubkey: script(&[0x6a, 0x01, 0xff]) },
        ],
        locktime: 500_000,
    }
}

fn spent_amounts() -> Vec<i64> {
    vec![50_000, 30_000, 1_000]
}

fn spent_scripts() -> Vec<Vec<u8>> {
    vec![p2tr(0x11), p2tr(0x22), p2tr(0x33)]
}

fn args(index: usize, sighash: u32, leaf: Option<([u8; 32], u32)>) -> UtxoTaprootPreimageArgs {
    UtxoTaprootPreimageArgs {
        args: UtxoPreimageArgs {
            input_index: index,
            script_pubkey: script(&spent_scripts()[index % 3]),
            amount: spent_amounts()[index % 3],
            leaf_hash_code_separator: leaf,
            sighash_ty: SighashType::from_u32(sighash).unwrap(),
        },
        spent_amounts: spent_amounts(),
        spent_script_pubkeys: spent_scripts().iter().map(|s| script(s)).collect(),
    }
}

fn reference_transaction(tx: &Transaction) -> bitcoin::Transaction {
    bitcoin::Transaction {
        version: tx.version as i32,
        lock_time: bitcoin::absolute::LockTime::from_consensus(tx.locktime),
        input: tx
            .inputs
            .iter()
            .map(|i| bitcoin::TxIn {
                previous_output: bitcoin::OutPoint {
                    txid: bitcoin::hashes::Hash::from_byte_array(i.previous_output.hash),
                    vout: i.previous_output.index,
                },
                script_sig: bitcoin::ScriptBuf::new(),
                sequence: bitcoin::Sequence(i.sequence),
                witness: bitcoin::Witness::new(),
            })
            .collect(),
        output: tx
            .outputs
            .iter()
            .map(|o| bitcoin::TxOut {
                value: o.value as u64,
                script_pubkey: bitcoin::ScriptBuf::from_bytes(o.script_pubkey.bytes.clone()),
            })
            .collect(),
    }
}

fn reference_prevouts() -> Vec<bitcoin::TxOut> {
    spent_amounts()
        .iter()
        .zip(spent_scripts())
        .map(|(amount, s)| bitcoin::TxOut {
            value: *amount as u64,
            script_pubkey: bitcoin::ScriptBuf::from_bytes(s),
        })
        .collect()
}

fn reference_leaf(leaf: Option<([u8; 32], u32)>) -> Option<(bitcoin::taproot::TapLeafHash, u32)> {
    leaf.map(|(hash, separator)| (bitcoin::hashes::Hash::from_byte_array(hash), separator))
}

fn reference_sighash(index: usize, sighash: u32, leaf: Option<([u8; 32], u32)>) -> Vec<u8> {
    let tx = reference_transaction(&transaction());
    let prevouts = reference_prevouts();
    let digest = bitcoin::sighash::SighashCache::new(&tx)
        .taproot_signature_hash(
            index,
            &bitcoin::sighash::Prevouts::All(&prevouts),
            None,
            reference_leaf(leaf),
            bitcoin::sighash::TapSighashType::from_consensus_u8(sighash as u8).unwrap(),
        )
        .unwrap();
    let bytes: &[u8] = digest.as_ref();
    bytes.to_vec()
}

fn reference_preimage(index: usize, sighash: u32, leaf: Option<([u8; 32], u32)>) -> Vec<u8> {
    let tx = reference_transaction(&transaction());
    let prevouts = reference_prevouts();
    let mut out = Vec::new();
    bitcoin::sighash::SighashCache::new(&tx)
        .taproot_encode_signing_data_to(
            &mut out,
            index,
            &bitcoin::sighash::Prevouts::All(&prevouts),
            None,
            reference_leaf(leaf),
            bitcoin::sighash::TapSighashType::from_consensus_u8(sighash as u8).unwrap(),
        )
        .unwrap();
    out
}

fn sha256(data: &[u8]) -> Vec<u8> {
    let digest: bitcoin::hashes::sha256::Hash = bitcoin::hashes::Hash::hash(data);
    let bytes: &[u8] = digest.as_ref();
    bytes.to_vec()
}

#[test]
fn sighash_type_from_u32_reads_base_and_flag() {
    let ty = SighashType::from_u32(0x83).unwrap();
    assert_eq!(ty.raw_sighash(), 0x83);
    assert_eq!(ty.base_type(), SighashBase::Single);
    assert!(ty.anyone_can_pay());
    assert_eq!(ty.serialize_as_taproot().unwrap(), 0x83);
    let ty = SighashType::from_u32(0x00).unwrap();
    assert_eq!(ty.base_type(), SighashBase::UseDefault);
    assert!(!ty.anyone_can_pay());
    let ty = SighashType::from_u32(0x01).unwrap();
    assert_eq!(ty.base_type(), SighashBase::All);
    let ty = SighashType::from_u32(0x02).unwrap();
    assert_eq!(ty.base_type(), SighashBase::NoOutputs);
    assert_eq!(SighashType::default().raw_sighash(), 1);
    assert_eq!(SighashType::default().base_type(), SighashBase::All);
}

#[test]
fn sighash_type_from_u32_rejects_unknown_base() {
    for raw in [0x04u32, 0x0f, 0x84, 0xffff_ffff] {
        let err = SighashType::from_u32(raw).unwrap_err();
        assert_eq!(err.kind(), SigningErrorType::InvalidParams);
    }
}

#[test]
fn taproot_takes_seven_hash_types_only() {
    for raw in HASH_TYPES {
        assert_eq!(SighashType::from_u32(raw).unwrap().serialize_as_taproot().unwrap() as u32, raw);
    }
    for raw in [0x41u32, 0x80, 0xc1, 0x101, 0x1_0001] {
        let err = SighashType::from_u32(raw).unwrap().serialize_as_taproot().unwrap_err();
        assert_eq!(err.kind(), SigningErrorType::InvalidParams);
    }
}

#[test]
fn transaction_parts_are_serialised_in_order() {
    let tx = transaction();
    let mut prevouts = Vec::new();
    prevouts.extend_from_slice(&[0xa1; 32]);
    prevouts.extend_from_slice(&[0, 0, 0, 0]);
    prevouts.extend_from_slice(&[0xb2; 32]);
    prevouts.extend_from_slice(&[7, 0, 0, 0]);
    prevouts.extend_from_slice(&[0xc3; 32]);
    prevouts.extend_from_slice(&[1, 0, 0, 0]);
    assert_eq!(serialize_prevouts(&tx), prevouts);
    assert_eq!(
        serialize_sequences(&tx),
        vec![0xff, 0xff, 0xff, 0xff, 0xfd, 0xff, 0xff, 0xff, 5, 0, 0, 0]
    );
    assert_eq!(
        serialize_amounts(&vec![1, 256]),
        vec![1, 0, 0, 0, 0, 0, 0, 0, 0, 1, 0, 0, 0, 0, 0, 0]
    );
    assert_eq!(
        serialize_script_pubkeys(&vec![script(&[0x51]), script(&[]), script(&[0x6a, 0x00])]),
        vec![0x01, 0x51, 0x00, 0x02, 0x6a, 0x00]
    );
    let small = Transaction {
        version: 2,
        inputs: Vec::new(),
        outputs: vec![
            TransactionOutput { value: 2, script_pubkey: script(&[0x51]) },
            TransactionOutput { value: 3, script_pubkey: script(&[]) },
        ],
        locktime: 0,
    };
    assert_eq!(
        serialize_outputs(&small),
        vec![2, 0, 0, 0, 0, 0, 0, 0, 1, 0x51, 3, 0, 0, 0, 0, 0, 0, 0, 0]
    );
    assert_eq!(serialize_prevouts(&small), Vec::<u8>::new());
    assert_eq!(serialize_sequences(&small), Vec::<u8>::new());
    let mut outpoint = Vec::new();
    tx.inputs[1].previous_output.serialize_into(&mut outpoint);
    assert_eq!(outpoint, prevouts[36..72].to_vec());
}

#[test]
fn preimage_of_a_key_path_spend_with_the_default_type() {
    let tx = transaction();
    let preimage = Taproot1Sighash::preimage(&tx, &args(1, 0x00, None)).unwrap();
    let mut expected = vec![0x00, 0x00];
    expected.extend_from_slice(&[2, 0, 0, 0]);
    expected.extend_from_slice(&500_000u32.to_le_bytes());
    expected.extend_from_slice(&sha256(&serialize_prevouts(&tx)));
    expected.extend_from_slice(&sha256(&serialize_amounts(&spent_amounts())));
    expected.extend_from_slice(&sha256(&serialize_script_pubkeys(
        &spent_scripts().iter().map(|s| script(s)).collect(),
    )));
    expected.extend_from_slice(&sha256(&serialize_sequences(&tx)));
    expected.extend_from_slice(&sha256(&serialize_outputs(&tx)));
    expected.push(0x00);
    expected.extend_from_slice(&[1, 0, 0, 0]);
    assert_eq!(preimage, expected);
    assert_eq!(preimage.len(), 175);
}

#[test]
fn preimage_of_a_script_path_spend_under_anyone_can_pay_and_single() {
    let tx = transaction();
    let leaf = Some(([0x77u8; 32], NO_CODE_SEPARATOR));
    let preimage = Taproot1Sighash::preimage(&tx, &args(1, 0x83, leaf)).unwrap();
    let mut expected = vec![0x00, 0x83];
    expected.extend_from_slice(&[2, 0, 0, 0]);
    expected.extend_from_slice(&500_000u32.to_le_bytes());
    expected.push(0x02);
    expected.extend_from_slice(&[0xb2; 32]);
    expected.extend_from_slice(&[7, 0, 0, 0]);
    expected.extend_from_slice(&30_000i64.to_le_bytes());
    expected.push(34);
    expected.extend_from_slice(&p2tr(0x22));
    expected.extend_from_slice(&[0xfd, 0xff, 0xff, 0xff]);
    let mut output = Vec::new();
    tx.outputs[1].serialize_into(&mut output);
    expected.extend_from_slice(&sha256(&output));
    expected.extend_from_slice(&[0x77; 32]);
    expected.push(0x00);
    expected.extend_from_slice(&[0xff, 0xff, 0xff, 0xff]);
    assert_eq!(preimage, expected);
}

#[test]
fn preimage_agrees_with_bitcoin_for_every_hash_type() {
    let tx = transaction();
    for index in 0..3usize {
        for sighash in HASH_TYPES {
            for leaf in [None, Some(([0x5a; 32], NO_CODE_SEPARATOR)), Some(([0x5a; 32], 3))] {
                let got = Taproot1Sighash::preimage(&tx, &args(index, sighash, leaf)).unwrap();
                assert_eq!(
                    got,
                    reference_preimage(index, sighash, leaf),
                    "input {index}, type {sighash:#x}"
                );
            }
        }
    }
}

#[test]
fn sighash_agrees_with_bitcoin_for_every_hash_type() {
    let tx = transaction();
    for index in 0..3usize {
        for sighash in HASH_TYPES {
            for leaf in [None, Some(([0x5a; 32], NO_CODE_SEPARATOR))] {
                let got = Taproot1Sighash::sighash_tx(&tx, &args(index, sighash, leaf)).unwrap();
                assert_eq!(
                    got.to_vec(),
                    reference_sighash(index, sighash, leaf),
                    "input {index}, type {sighash:#x}"
                );
            }
        }
    }
}

#[test]
fn sighash_is_the_same_each_time() {
    let tx = transaction();
    for sighash in HASH_TYPES {
        let first = Taproot1Sighash::sighash_tx(&tx, &args(0, sighash, None)).unwrap();
        let second = Taproot1Sighash::sighash_tx(&transaction(), &args(0, sighash, None)).unwrap();
        assert_eq!(first, second);
    }
}

#[test]
fn sighash_changes_with_the_hash_type() {
    let tx = transaction();
    let mut digests: Vec<[u8; 32]> = Vec::new();
    for sighash in HASH_TYPES {
        digests.push(Taproot1Sighash::sighash_tx(&tx, &args(0, sighash, None)).unwrap());
    }
    for a in 0..digests.len() {
        for b in (a + 1)..digests.len() {
            assert_ne!(digests[a], digests[b], "types {:#x} and {:#x}", HASH_TYPES[a], HASH_TYPES[b]);
        }
    }
}

#[test]
fn input_index_stands_in_the_preimage_unless_anyone_can_pay() {
    let tx = transaction();
    // Default type: epoch, type, version, lock time, five digests, spend type, index.
    let all = Taproot1Sighash::preimage(&tx, &args(2, 0x01, None)).unwrap();
    assert_eq!(all.len(), 2 + 8 + 5 * 32 + 1 + 4);
    assert_eq!(&all[171..], &[2, 0, 0, 0]);
    // Anyone-can-pay: no digests over the inputs, and the outpoint in place of the index.
    let acp = Taproot1Sighash::preimage(&tx, &args(2, 0x81, None)).unwrap();
    assert_eq!(acp.len(), 2 + 8 + 32 + 1 + 36 + 8 + 35 + 4);
    assert_eq!(&acp[43..75], &[0xc3; 32]);
    assert_eq!(all[1], 0x01);
    assert_eq!(acp[1], 0x81);
}

#[test]
fn sighash_fails_without_the_data_of_the_input() {
    let tx = transaction();
    let err = Taproot1Sighash::sighash_tx(&tx, &args(3, 0x00, None)).unwrap_err();
    assert_eq!(err.kind(), SigningErrorType::InvalidParams);

    let mut short = args(0, 0x00, None);
    short.spent_amounts.pop();
    let err = Taproot1Sighash::sighash_tx(&tx, &short).unwrap_err();
    assert_eq!(err.kind(), SigningErrorType::InvalidParams);

    let mut short = args(0, 0x00, None);
    short.spent_script_pubkeys.pop();
    let err = Taproot1Sighash::preimage(&tx, &short).unwrap_err();
    assert_eq!(err.kind(), SigningErrorType::InvalidParams);

    let empty = Transaction { version: 2, inputs: Vec::new(), outputs: Vec::new(), locktime: 0 };
    let mut none = args(0, 0x00, None);
    none.spent_amounts.clear();
    none.spent_script_pubkeys.clear();
    let err = Taproot1Sighash::sighash_tx(&empty, &none).unwrap_err();
    assert_eq!(err.kind(), SigningErrorType::InvalidParams);
}

#[test]
fn sighash_fails_on_a_hash_type_that_taproot_does_not_know() {
    let tx = transaction();
    let err = Taproot1Sighash::sighash_tx(&tx, &args(0, 0x41, None)).unwrap_err();
    assert_eq!(err.kind(), SigningErrorType::InvalidParams);
}

#[test]
fn single_needs_an_output_at_the_index_of_the_input() {
    let mut tx = transaction();
    tx.outputs.truncate(2);
    assert!(Taproot1Sighash::sighash_tx(&tx, &args(1, 0x03, None)).is_ok());
    let err = Taproot1Sighash::sighash_tx(&tx, &args(2, 0x03, None)).unwrap_err();
    assert_eq!(err.kind(), SigningErrorType::InvalidParams);
    let err = Taproot1Sighash::sighash_tx(&tx, &args(2, 0x83, None)).unwrap_err();
    assert_eq!(err.kind(), SigningErrorType::InvalidParams);
    // The other base types do not need one.
    assert!(Taproot1Sighash::sighash_tx(&tx, &args(2, 0x01, None)).is_ok());
    assert!(Taproot1Sighash::sighash_tx(&tx, &args(2, 0x02, None)).is_ok());
}
