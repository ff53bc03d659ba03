use tw_bitcoin::error::SigningErrorType;
use tw_bitcoin::legacy_sighash::LegacySighash;
use tw_bitcoin::script::Script;
use tw_bitcoin::sighash::SighashType;
use tw_bitcoin::sighash_engine::sighash_tx;
use tw_bitcoin::taproot1_sighash::{Taproot1Sighash, UtxoPreimageArgs, UtxoTaprootPreimageArgs};
use tw_bitcoin::transaction::{OutPoint, Transaction, TransactionInput, TransactionOutput};
use tw_bitcoin::utxo_builder::SigningMethod;
use tw_bitcoin::witness0_sighash::{sha256d_digest, Witness0Sighash};

const HASH_TYPES: [u32; 7] = [0x00, 0x01, 0x02, 0x03, 0x81, 0x82, 0x83];

fn script(bytes: &[u8]) -> Script {
    Script { bytes: bytes.to_vec() }
}

fn input(n: u8, index: u32, sequence: u32) -> TransactionInput {
    TransactionInput {
        previous_output: OutPoint { hash: [n; 32], index },
        script_sig: Script::new(),
        sequence,
        witness: Vec::new(),
    }
}

fn p2pkh(n: u8) -> Vec<u8> {
    let mut s = vec![0x76, 0xa9, 0x14];
    s.extend_from_slice(&[n; 20]);
    s.extend_from_slice(&[0x88, 0xac]);
    s
}

fn transaction() -> Transaction {
    Transaction {
        version: 1,
        inputs: vec![input(0xa1, 0, 0xffff_ffff), input(0xb2, 7, 0xffff_fffd), input(0xc3, 1, 5)],
        outputs: vec![
            TransactionOutput { value: 40_000, script_pubkey: script(&p2pkh(1)) },
            TransactionOutput { value: 25_000, script_pubkey: script(&p2pkh(2)) },
        ],
        locktime: 17,
    }
}

fn args(index: usize, sighash: u32) -> UtxoPreimageArgs {
    UtxoPreimageArgs {
        input_index: index,
        script_pubkey: script(&p2pkh(0x30 + index as u8)),
        amount: 50_000 + index as i64,
        leaf_hash_code_separator: None,
        sighash_ty: SighashType::from_u32(sighash).unwrap(),
    }
}

fn reference_transaction(tx: &Transaction) -> bitcoin::Transaction {
    bitcoin::Transaction {
        version: tx.version as i32,
        lock_time: bitcoin::absolute::LockTime::from_consensus(tx.locktime),
        input: tx
            .inputs
            .iter()
            .map(|i| bitcoin::TxIn {
                previous_output: bitcoin::OutPoint {
                    txid: bitcoin::hashes::Hash::from_byte_array(i.previous_output.hash),
                    vout: i.previous_output.index,
                },
                script_sig: bitcoin::ScriptBuf::new(),
                sequence: bitcoin::Sequence(i.sequence),
                witness: bitcoin::Witness::new(),
            })
            .collect(),
        output: tx
            .outputs
            .iter()
            .map(|o| bitcoin::TxOut {
                value: o.value as u64,
                script_pubkey: bitcoin::ScriptBuf::from_bytes(o.script_pubkey.bytes.clone()),
            })
            .collect(),
    }
}

fn reference_legacy(index: usize, sighash: u32) -> Vec<u8> {
    let tx = reference_transaction(&transaction());
    let code = bitcoin::ScriptBuf::from_bytes(p2pkh(0x30 + index as u8));
    let digest = bitcoin::sighash::SighashCache::new(&tx)
        .legacy_signature_hash(index, &code, sighash)
        .unwrap();
    let bytes: &[u8] = digest.as_ref();
    bytes.to_vec()
}

fn reference_witness0(index: usize, sighash: u32) -> Vec<u8> {
    let tx = reference_transaction(&transaction());
    let code = bitcoin::ScriptBuf::from_bytes(p2pkh(0x30 + index as u8));
    let digest = bitcoin::sighash::SighashCache::new(&tx)
        .segwit_signature_hash(
            index,
            &code,
            50_000 + index as u64,
            bitcoin::sighash::EcdsaSighashType::from_consensus(sighash),
        )
        .unwrap();
    let bytes: &[u8] = digest.as_ref();
    bytes.to_vec()
}

#[test]
fn double_sha256_of_the_empty_string() {
    let expected: [u8; 32] = [
        0x5d, 0xf6, 0xe0, 0xe2, 0x76, 0x13, 0x59, 0xd3, 0x0a, 0x82, 0x75, 0x05, 0x8e, 0x29, 0x9f,
        0xcc, 0x03, 0x81, 0x53, 0x45, 0x45, 0xf5, 0x5c, 0xf4, 0x3e, 0x41, 0x98, 0x3f, 0x5d, 0x4c,
        0x94, 0x56,
    ];
    assert_eq!(sha256d_digest(&[]), expected);
}

#[test]
fn legacy_sighash_agrees_with_bitcoin() {
    let tx = transaction();
    for index in 0..3usize {
        for sighash in HASH_TYPES {
            // Consensus gives the number one for every `Single` without an output;
            // that case is tested on its own.
            if index == 2 && sighash & 0x1f == 0x03 {
                continue;
            }
            let got = LegacySighash::sighash_tx(&tx, &args(index, sighash)).unwrap();
            assert_eq!(got.to_vec(), reference_legacy(index, sighash), "input {index}, type {sighash:#x}");
        }
    }
}

#[test]
fn legacy_preimage_of_the_type_that_commits_to_everything() {
    let tx = transaction();
    let preimage = LegacySighash::preimage(&tx, &args(1, 0x01)).unwrap();
    let mut expected = vec![1, 0, 0, 0, 3];
    expected.extend_from_slice(&[0xa1; 32]);
    expected.extend_from_slice(&[0, 0, 0, 0, 0]);
    expected.extend_from_slice(&[0xff, 0xff, 0xff, 0xff]);
    expected.extend_from_slice(&[0xb2; 32]);
    expected.extend_from_slice(&[7, 0, 0, 0, 25]);
    expected.extend_from_slice(&p2pkh(0x31));
    expected.extend_from_slice(&[0xfd, 0xff, 0xff, 0xff]);
    expected.extend_from_slice(&[0xc3; 32]);
    expected.extend_from_slice(&[1, 0, 0, 0, 0]);
    expected.extend_from_slice(&[5, 0, 0, 0]);
    expected.push(2);
    expected.extend_from_slice(&40_000i64.to_le_bytes());
    expected.push(25);
    expected.extend_from_slice(&p2pkh(1));
    expected.extend_from_slice(&25_000i64.to_le_bytes());
    expected.push(25);
    expected.extend_from_slice(&p2pkh(2));
    expected.extend_from_slice(&[17, 0, 0, 0]);
    expected.extend_from_slice(&[1, 0, 0, 0]);
    assert_eq!(preimage, expected);
    assert_eq!(
        LegacySighash::sighash_tx(&tx, &args(1, 0x01)).unwrap(),
        sha256d_digest(&expected)
    );
}

#[test]
fn legacy_preimage_under_single_and_anyone_can_pay() {
    let tx = transaction();
    let preimage = LegacySighash::preimage(&tx, &args(1, 0x83)).unwrap();
    let mut expected = vec![1, 0, 0, 0, 1];
    expected.extend_from_slice(&[0xb2; 32]);
    expected.extend_from_slice(&[7, 0, 0, 0, 25]);
    expected.extend_from_slice(&p2pkh(0x31));
    expected.extend_from_slice(&[0xfd, 0xff, 0xff, 0xff]);
    expected.push(2);
    expected.extend_from_slice(&[0xff; 8]);
    expected.push(0);
    expected.extend_from_slice(&25_000i64.to_le_bytes());
    expected.push(25);
    expected.extend_from_slice(&p2pkh(2));
    expected.extend_from_slice(&[17, 0, 0, 0]);
    expected.extend_from_slice(&[0x83, 0, 0, 0]);
    assert_eq!(preimage, expected);
}

#[test]
fn legacy_single_without_an_output_gives_the_number_one() {
    let tx = transaction();
    let mut one = [0u8; 32];
    one[0] = 1;
    assert_eq!(LegacySighash::sighash_tx(&tx, &args(2, 0x03)).unwrap(), one);
    assert_eq!(LegacySighash::sighash_tx(&tx, &args(2, 0x83)).unwrap(), one);
    let err = LegacySighash::preimage(&tx, &args(2, 0x03)).unwrap_err();
    assert_eq!(err.kind(), SigningErrorType::InvalidParams);
}

#[test]
fn witness0_sighash_agrees_with_bitcoin() {
    let tx = transaction();
    for index in 0..3usize {
        // The flag word zero has no name among the hash types of bitcoin's ECDSA signatures.
        for sighash in &HASH_TYPES[1..] {
            let sighash = *sighash;
            let got = Witness0Sighash::sighash_tx(&tx, &args(index, sighash)).unwrap();
            assert_eq!(got.to_vec(), reference_witness0(index, sighash), "input {index}, type {sighash:#x}");
        }
    }
}

#[test]
fn witness0_sighash_commits_to_the_flag_word_as_given() {
    let tx = transaction();
    let zero = Witness0Sighash::preimage(&tx, &args(0, 0x00)).unwrap();
    let all = Witness0Sighash::preimage(&tx, &args(0, 0x01)).unwrap();
    let n = zero.len();
    assert_eq!(&zero[n - 4..], &[0, 0, 0, 0]);
    assert_eq!(&all[n - 4..], &[1, 0, 0, 0]);
    assert_eq!(&zero[..n - 4], &all[..n - 4]);
}

#[test]
fn witness0_preimage_under_anyone_can_pay_and_no_outputs() {
    let tx = transaction();
    let preimage = Witness0Sighash::preimage(&tx, &args(0, 0x82)).unwrap();
    let mut expected = vec![1, 0, 0, 0];
    expected.extend_from_slice(&[0; 64]);
    expected.extend_from_slice(&[0xa1; 32]);
    expected.extend_from_slice(&[0, 0, 0, 0, 25]);
    expected.extend_from_slice(&p2pkh(0x30));
    expected.extend_from_slice(&50_000i64.to_le_bytes());
    expected.extend_from_slice(&[0xff, 0xff, 0xff, 0xff]);
    expected.extend_from_slice(&[0; 32]);
    expected.extend_from_slice(&[17, 0, 0, 0]);
    expected.extend_from_slice(&[0x82, 0, 0, 0]);
    assert_eq!(preimage, expected);
    assert_eq!(
        Witness0Sighash::sighash_tx(&tx, &args(0, 0x82)).unwrap(),
        sha256d_digest(&expected)
    );
}

#[test]
fn classic_sighash_fails_without_the_input() {
    let tx = transaction();
    assert_eq!(
        LegacySighash::sighash_tx(&tx, &args(3, 0x01)).unwrap_err().kind(),
        SigningErrorType::InvalidParams
    );
    assert_eq!(
        LegacySighash::preimage(&tx, &args(3, 0x01)).unwrap_err().kind(),
        SigningErrorType::InvalidParams
    );
    assert_eq!(
        Witness0Sighash::sighash_tx(&tx, &args(3, 0x01)).unwrap_err().kind(),
        SigningErrorType::InvalidParams
    );
    assert_eq!(
        Witness0Sighash::preimage(&tx, &args(usize::MAX, 0x01)).unwrap_err().kind(),
        SigningErrorType::InvalidParams
    );
}

#[test]
fn engine_goes_by_the_signing_method() {
    let tx = transaction();
    let tr = UtxoTaprootPreimageArgs {
        args: args(1, 0x01),
        spent_amounts: vec![1, 2, 3],
        spent_script_pubkeys: vec![script(&[0x51]), script(&[0x52]), script(&[0x53])],
    };
    let legacy = sighash_tx(&tx, &tr, SigningMethod::Legacy).unwrap();
    let segwit = sighash_tx(&tx, &tr, SigningMethod::Segwit).unwrap();
    let taproot = sighash_tx(&tx, &tr, SigningMethod::Taproot).unwrap();
    assert_eq!(legacy, LegacySighash::sighash_tx(&tx, &tr.args).unwrap());
    assert_eq!(segwit, Witness0Sighash::sighash_tx(&tx, &tr.args).unwrap());
    assert_eq!(taproot, Taproot1Sighash::sighash_tx(&tx, &tr).unwrap());
    assert_ne!(legacy, segwit);
    assert_ne!(segwit, taproot);
    assert_ne!(legacy, taproot);

    let incomplete = UtxoTaprootPreimageArgs {
        args: args(1, 0x01),
        spent_amounts: Vec::new(),
        spent_script_pubkeys: Vec::new(),
    };
    assert!(sighash_tx(&tx, &incomplete, SigningMethod::Legacy).is_ok());
    assert_eq!(
        sighash_tx(&tx, &incomplete, SigningMethod::Taproot).unwrap_err().kind(),
        SigningErrorType::InvalidParams
    );
}
