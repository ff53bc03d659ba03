use tw_bitcoin::error::SigningErrorType;
use tw_bitcoin::modules::tx_builder::public_keys::PublicKeys;
use tw_bitcoin::modules::tx_builder::utxo_protobuf::{
    parse_out_point, parse_schnorr_pubkey_sig, UtxoProtobuf,
};
use tw_bitcoin::modules::tx_builder::{
    parse_schnorr_pk, parse_schnorr_pks, BitcoinChainInfo, UtxoContext,
};
use tw_bitcoin::proto;
use tw_bitcoin::sighash::SighashType;
use tw_bitcoin::standard_script::{
    new_p2pk, new_p2pkh, new_p2sh, new_p2tr_dangerous_assume_tweaked, new_p2tr_key_path,
    new_p2tr_script_path, new_p2wpkh, new_p2wsh, StandardScript, StandardScriptParser,
};
use tw_bitcoin::script::Script;
use tw_bitcoin::schnorr;
use tw_bitcoin::taproot::{compute_root, leaf_hash};
use tw_bitcoin::transaction::TransactionInput;
use tw_bitcoin::utxo_builder::{SigningMethod, UtxoBuilder, UtxoToSign};

/// A chain on which an address is the hex of its locking script.
struct HexContext;

impl UtxoContext for HexContext {
    fn addr_to_script_pubkey(address: &str, chain_info: &BitcoinChainInfo) -> Option<Vec<u8>> {
        let rest = address.strip_prefix(chain_info.hrp.as_deref().unwrap_or(""))?;
        if rest.len() % 2 != 0 {
            return None;
        }
        (0..rest.len() / 2).map(|i| u8::from_str_radix(rest.get(2 * i..2 * i + 2)?, 16).ok()).collect()
    }
}

fn hex(bytes: &[u8]) -> String {
    bytes.iter().map(|b| format!("{b:02x}")).collect()
}

fn chain() -> BitcoinChainInfo {
    BitcoinChainInfo { p2pkh_prefix: 0, p2sh_prefix: 5, hrp: Some(String::from("hx")) }
}

fn secret(n: u8) -> secp256k1::SecretKey {
    secp256k1::SecretKey::from_slice(&[n; 32]).unwrap()
}

fn compressed(n: u8) -> Vec<u8> {
    secp256k1::PublicKey::from_secret_key(secp256k1::SECP256K1, &secret(n)).serialize().to_vec()
}

fn x_only(n: u8) -> Vec<u8> {
    compressed(n)[1..].to_vec()
}

fn hash160(data: &[u8]) -> [u8; 20] {
    let digest: bitcoin::hashes::hash160::Hash = bitcoin::hashes::Hash::hash(data);
    bitcoin::hashes::Hash::to_byte_array(digest)
}

fn input(claiming_script: proto::ClaimingScript) -> proto::Input {
    proto::Input {
        out_point: Some(proto::OutPoint { hash: vec![0xab; 32], vout: 3 }),
        value: 7_000,
        sighash_type: 1,
        sequence: None,
        claiming_script,
    }
}

fn builder_claim(builder: proto::InputBuilder) -> proto::Input {
    input(proto::ClaimingScript::ScriptBuilder(builder))
}

fn build(input: &proto::Input, keys: &PublicKeys) -> Result<(TransactionInput, UtxoToSign), SigningErrorType> {
    let chain = chain();
    UtxoProtobuf::<HexContext>::new(&chain, input, keys).utxo_from_proto().map_err(|e| e.kind())
}

fn timelock(staking_time: u32, covenants: &[u8], quorum: u32) -> proto::BabylonStakingTimelockPath {
    proto::BabylonStakingTimelockPath {
        staker_public_key: x_only(1),
        finality_provider_public_key: x_only(2),
        staking_time,
        covenant_committee_public_keys: covenants.iter().map(|n| x_only(*n)).collect(),
        covenant_quorum: quorum,
    }
}

fn unbonding(
    covenants: &[u8],
    quorum: u32,
    signers: Vec<Vec<u8>>,
) -> proto::BabylonStakingUnbondingPath {
    proto::BabylonStakingUnbondingPath {
        staker_public_key: x_only(1),
        finality_provider_public_key: x_only(2),
        staking_time: 100,
        covenant_committee_public_keys: covenants.iter().map(|n| x_only(*n)).collect(),
        covenant_quorum: quorum,
        covenant_committee_signatures: signers
            .into_iter()
            .enumerate()
            .map(|(i, public_key)| proto::PublicKeySignature {
                public_key,
                signature: vec![i as u8 + 1; 64],
            })
            .collect(),
    }
}

fn sorted_x_only(ns: &[u8]) -> Vec<Vec<u8>> {
    let mut all: Vec<Vec<u8>> = ns.iter().map(|n| x_only(*n)).collect();
    all.sort();
    all
}

fn assert_unsigned(input: &TransactionInput) {
    assert_eq!(input.previous_output.hash, [0xab; 32]);
    assert_eq!(input.previous_output.index, 3);
    assert_eq!(input.sequence, 0xffff_ffff);
    assert!(input.script_sig.bytes.is_empty());
    assert!(input.witness.is_empty());
}

#[test]
fn out_point_needs_a_hash_of_32_bytes() {
    let parsed = parse_out_point(&Some(proto::OutPoint { hash: vec![7; 32], vout: 9 })).unwrap();
    assert_eq!(parsed.hash, [7; 32]);
    assert_eq!(parsed.index, 9);
    for len in [0usize, 31, 33] {
        let err = parse_out_point(&Some(proto::OutPoint { hash: vec![7; len], vout: 9 })).unwrap_err();
        assert_eq!(err.kind(), SigningErrorType::InvalidParams);
    }
    assert_eq!(parse_out_point(&None).unwrap_err().kind(), SigningErrorType::InvalidParams);
}

#[test]
fn builder_takes_outpoint_amount_sequence_and_hash_type() {
    let keys = PublicKeys::new();
    let chain = chain();
    let mut described = builder_claim(proto::InputBuilder::Unset);
    described.sequence = Some(12);
    described.sighash_type = 0x83;
    let builder = UtxoProtobuf::<HexContext>::new(&chain, &described, &keys).prepare_builder().unwrap();
    assert_eq!(builder.get_amount(), 7_000);
    assert_eq!(builder.get_sighash_type().raw_sighash(), 0x83);
    let unsigned = builder.unsigned_input();
    assert_eq!(unsigned.sequence, 12);
    assert_eq!(unsigned.previous_output.hash, [0xab; 32]);
    assert_eq!(unsigned.previous_output.index, 3);
}

#[test]
fn sequence_defaults_to_the_highest() {
    let keys = PublicKeys::new();
    let (built, _) = build(&builder_claim(proto::InputBuilder::P2pk(compressed(1))), &keys).unwrap();
    assert_eq!(built.sequence, u32::MAX);
    let mut described = builder_claim(proto::InputBuilder::P2pk(compressed(1)));
    described.sequence = Some(0);
    let (built, _) = build(&described, &keys).unwrap();
    assert_eq!(built.sequence, 0);
}

#[test]
fn negative_amount_fails_with_invalid_utxo_amount() {
    let keys = PublicKeys::new();
    let mut described = builder_claim(proto::InputBuilder::P2pk(compressed(1)));
    described.value = -1;
    assert_eq!(build(&described, &keys).unwrap_err(), SigningErrorType::InvalidUtxoAmount);
    let chain = chain();
    let err = UtxoProtobuf::<HexContext>::new(&chain, &described, &keys).prepare_builder().unwrap_err();
    assert_eq!(err.kind(), SigningErrorType::InvalidUtxoAmount);
    // Before any script is looked at: a script that is no standard one gives the same error.
    let mut described = input(proto::ClaimingScript::ScriptData(vec![0xde, 0xad]));
    described.value = -1;
    assert_eq!(build(&described, &keys).unwrap_err(), SigningErrorType::InvalidUtxoAmount);
    let mut described = builder_claim(proto::InputBuilder::BabylonTimelockPath(timelock(100, &[5, 3, 9], 0)));
    described.value = i64::MIN;
    assert_eq!(build(&described, &keys).unwrap_err(), SigningErrorType::InvalidUtxoAmount);
    // Zero is an amount.
    let mut described = builder_claim(proto::InputBuilder::P2pk(compressed(1)));
    described.value = 0;
    assert!(build(&described, &keys).is_ok());
}

#[test]
fn missing_outpoint_and_unknown_hash_type_fail_with_invalid_params() {
    let keys = PublicKeys::new();
    let mut described = builder_claim(proto::InputBuilder::P2pk(compressed(1)));
    described.out_point = None;
    assert_eq!(build(&described, &keys).unwrap_err(), SigningErrorType::InvalidParams);
    let mut described = builder_claim(proto::InputBuilder::P2pk(compressed(1)));
    described.sighash_type = 7;
    assert_eq!(build(&described, &keys).unwrap_err(), SigningErrorType::InvalidParams);
}

#[test]
fn no_claim_fails_with_invalid_params() {
    let keys = PublicKeys::new();
    assert_eq!(build(&input(proto::ClaimingScript::Unset), &keys).unwrap_err(), SigningErrorType::InvalidParams);
    assert_eq!(
        build(&builder_claim(proto::InputBuilder::Unset), &keys).unwrap_err(),
        SigningErrorType::InvalidParams
    );
}

#[test]
fn p2pk_claim() {
    let keys = PublicKeys::new();
    let (built, utxo) = build(&builder_claim(proto::InputBuilder::P2pk(compressed(1))), &keys).unwrap();
    assert_unsigned(&built);
    let mut expected = vec![0x21];
    expected.extend_from_slice(&compressed(1));
    expected.push(0xac);
    assert_eq!(utxo.prevout_script_pubkey.bytes, expected);
    assert_eq!(utxo.reveal_script_pubkey.bytes, expected);
    assert_eq!(utxo.signing_method, SigningMethod::Legacy);
    assert_eq!(utxo.spender_public_key, compressed(1));
    assert_eq!(utxo.amount, 7_000);
    assert_eq!(utxo.sighash_ty.raw_sighash(), 1);
    assert!(utxo.leaf_hash_code_separator.is_none());
    assert!(utxo.control_block.is_none());
    assert!(utxo.taproot_tweak.is_none());
    assert!(utxo.covenant_signatures.is_empty());
}

#[test]
fn p2pk_claim_with_an_invalid_key() {
    let keys = PublicKeys::new();
    let err = build(&builder_claim(proto::InputBuilder::P2pk(vec![0xff; 33])), &keys).unwrap_err();
    assert_eq!(err, SigningErrorType::InvalidPublicKey);
}

#[test]
fn p2pkh_claim_by_key() {
    let keys = PublicKeys::new();
    let claim = proto::InputBuilder::P2pkh(proto::PublicKeyOrHash::Pubkey(compressed(2)));
    let (built, utxo) = build(&builder_claim(claim), &keys).unwrap();
    assert_unsigned(&built);
    let mut expected = vec![0x76, 0xa9, 0x14];
    expected.extend_from_slice(&hash160(&compressed(2)));
    expected.extend_from_slice(&[0x88, 0xac]);
    assert_eq!(utxo.prevout_script_pubkey.bytes, expected);
    assert_eq!(utxo.signing_method, SigningMethod::Legacy);
    assert_eq!(utxo.spender_public_key, compressed(2));
}

#[test]
fn p2pkh_claim_by_hash() {
    let mut keys = PublicKeys::new();
    keys.add_public_key(compressed(2));
    keys.add_public_key(compressed(3));
    let claim =
        proto::InputBuilder::P2pkh(proto::PublicKeyOrHash::Hash(hash160(&compressed(2)).to_vec()));
    let (_, utxo) = build(&builder_claim(claim), &keys).unwrap();
    assert_eq!(utxo.spender_public_key, compressed(2));
    assert_eq!(utxo.prevout_script_pubkey.bytes, new_p2pkh(&hash160(&compressed(2))).bytes);
}

#[test]
fn p2pkh_claim_by_a_hash_that_the_lookup_does_not_know() {
    let mut keys = PublicKeys::new();
    keys.add_public_key(compressed(3));
    let claim = proto::InputBuilder::P2pkh(proto::PublicKeyOrHash::Hash(vec![0x5c; 20]));
    assert_eq!(build(&builder_claim(claim), &keys).unwrap_err(), SigningErrorType::InvalidParams);
    let claim = proto::InputBuilder::P2wpkh(proto::PublicKeyOrHash::Hash(vec![0x5c; 20]));
    assert_eq!(build(&builder_claim(claim), &PublicKeys::new()).unwrap_err(), SigningErrorType::InvalidParams);
}

#[test]
fn key_hash_must_have_20_bytes() {
    let keys = PublicKeys::new();
    for len in [0usize, 19, 21, 32] {
        let claim = proto::InputBuilder::P2pkh(proto::PublicKeyOrHash::Hash(vec![0x5c; len]));
        assert_eq!(build(&builder_claim(claim), &keys).unwrap_err(), SigningErrorType::InvalidParams);
    }
    let claim = proto::InputBuilder::P2pkh(proto::PublicKeyOrHash::Unset);
    assert_eq!(build(&builder_claim(claim), &keys).unwrap_err(), SigningErrorType::InvalidParams);
}

#[test]
fn lookup_finds_the_key_that_was_added_last() {
    let mut keys = PublicKeys::new();
    assert_eq!(keys.get_public_key(&[0; 20]).unwrap_err().kind(), SigningErrorType::InvalidParams);
    keys.add_public_key(compressed(2));
    keys.add_public_key(vec![1, 2, 3]);
    assert_eq!(keys.get_public_key(&hash160(&compressed(2))).unwrap(), compressed(2).as_slice());
    assert_eq!(keys.get_public_key(&hash160(&[1, 2, 3])).unwrap(), &[1, 2, 3]);
    assert_eq!(
        keys.get_ecdsa_public_key(&hash160(&compressed(2))).unwrap().to_vec(),
        compressed(2)
    );
    assert_eq!(
        keys.get_ecdsa_public_key(&hash160(&[1, 2, 3])).unwrap_err().kind(),
        SigningErrorType::InvalidPublicKey
    );
    assert_eq!(
        keys.get_ecdsa_public_key(&[9; 20]).unwrap_err().kind(),
        SigningErrorType::InvalidParams
    );
}

#[test]
fn p2wpkh_claim() {
    let keys = PublicKeys::new();
    let claim = proto::InputBuilder::P2wpkh(proto::PublicKeyOrHash::Pubkey(compressed(2)));
    let (built, utxo) = build(&builder_claim(claim), &keys).unwrap();
    assert_unsigned(&built);
    let mut expected = vec![0x00, 0x14];
    expected.extend_from_slice(&hash160(&compressed(2)));
    assert_eq!(utxo.prevout_script_pubkey.bytes, expected);
    assert_eq!(utxo.reveal_script_pubkey.bytes, new_p2pkh(&hash160(&compressed(2))).bytes);
    assert_eq!(utxo.signing_method, SigningMethod::Segwit);
}

#[test]
fn p2tr_key_path_claim() {
    let keys = PublicKeys::new();
    let (built, utxo) =
        build(&builder_claim(proto::InputBuilder::P2trKeyPath(compressed(4))), &keys).unwrap();
    assert_unsigned(&built);
    let internal = secp256k1::XOnlyPublicKey::from_slice(&x_only(4)).unwrap();
    let expected = bitcoin::ScriptBuf::new_v1_p2tr(secp256k1::SECP256K1, internal, None);
    assert_eq!(utxo.prevout_script_pubkey.bytes, expected.to_bytes());
    assert_eq!(utxo.signing_method, SigningMethod::Taproot);
    assert_eq!(utxo.spender_public_key, compressed(4));
    assert!(utxo.taproot_tweak.unwrap().merkle_root.is_none());
    assert!(utxo.leaf_hash_code_separator.is_none());
    let err = build(&builder_claim(proto::InputBuilder::P2trKeyPath(vec![0xff; 33])), &keys).unwrap_err();
    assert_eq!(err, SigningErrorType::InvalidPublicKey);
}

#[test]
fn standard_scripts_are_recognised() {
    let parser = StandardScriptParser {};
    let pk: [u8; 33] = compressed(1).try_into().unwrap();
    assert!(matches!(parser.parse(&new_p2pk(&pk)).unwrap(), StandardScript::P2PK(k) if k.to_vec() == compressed(1)));
    assert!(matches!(parser.parse(&new_p2pkh(&[7; 20])).unwrap(), StandardScript::P2PKH(h) if h == [7; 20]));
    assert!(matches!(parser.parse(&new_p2sh(&[8; 20])).unwrap(), StandardScript::P2SH(h) if h == [8; 20]));
    assert!(matches!(parser.parse(&new_p2wpkh(&[9; 20])).unwrap(), StandardScript::P2WPKH(h) if h == [9; 20]));
    assert!(matches!(parser.parse(&new_p2wsh(&[10; 32])).unwrap(), StandardScript::P2WSH(h) if h == [10; 32]));
    assert!(matches!(
        parser.parse(&new_p2tr_dangerous_assume_tweaked(&[11; 32])).unwrap(),
        StandardScript::P2TR(k) if k == [11; 32]
    ));
    assert!(matches!(
        parser.parse(&Script::from(vec![0x6a, 0x02, 0xaa, 0xbb])).unwrap(),
        StandardScript::OpReturn(p) if p == vec![0x02, 0xaa, 0xbb]
    ));
    assert!(matches!(
        parser.parse(&Script::from(vec![0x6a])).unwrap(),
        StandardScript::OpReturn(p) if p.is_empty()
    ));
}

#[test]
fn uncompressed_p2pk_is_recognised() {
    let parser = StandardScriptParser {};
    let uncompressed = secp256k1::PublicKey::from_secret_key(secp256k1::SECP256K1, &secret(1))
        .serialize_uncompressed();
    let mut script = vec![0x41];
    script.extend_from_slice(&uncompressed);
    script.push(0xac);
    assert!(matches!(
        parser.parse(&Script::from(script)).unwrap(),
        StandardScript::P2PK(k) if k.to_vec() == compressed(1)
    ));
}

#[test]
fn other_scripts_are_not_recognised() {
    let parser = StandardScriptParser {};
    for bytes in [vec![], vec![0x51], vec![0x00, 0x14, 1, 2], vec![0x76, 0xa9, 0x14]] {
        let err = parser.parse(&Script::from(bytes)).unwrap_err();
        assert_eq!(err.kind(), SigningErrorType::InvalidUtxo);
    }
    let mut p2pk = vec![0x21];
    p2pk.extend_from_slice(&[0xff; 33]);
    p2pk.push(0xac);
    let err = parser.parse(&Script::from(p2pk)).unwrap_err();
    assert_eq!(err.kind(), SigningErrorType::InvalidPublicKey);
}

#[test]
fn standard_scripts_agree_with_bitcoin() {
    let key = bitcoin::PublicKey::from_slice(&compressed(1)).unwrap();
    let pk: [u8; 33] = compressed(1).try_into().unwrap();
    assert_eq!(new_p2pk(&pk).bytes, bitcoin::ScriptBuf::new_p2pk(&key).to_bytes());
    assert_eq!(
        new_p2pkh(&hash160(&compressed(1))).bytes,
        bitcoin::ScriptBuf::new_p2pkh(&key.pubkey_hash()).to_bytes()
    );
    assert_eq!(
        new_p2wpkh(&hash160(&compressed(1))).bytes,
        bitcoin::ScriptBuf::new_v0_p2wpkh(&key.wpubkey_hash().unwrap()).to_bytes()
    );
    let internal = secp256k1::XOnlyPublicKey::from_slice(&x_only(1)).unwrap();
    let schnorr_key = schnorr::PublicKey::try_from(&compressed(1)).unwrap();
    assert_eq!(
        new_p2tr_key_path(&schnorr_key).unwrap().bytes,
        bitcoin::ScriptBuf::new_v1_p2tr(secp256k1::SECP256K1, internal, None).to_bytes()
    );
    let root: bitcoin::taproot::TapNodeHash = bitcoin::hashes::Hash::from_byte_array([0x31; 32]);
    assert_eq!(
        new_p2tr_script_path(&schnorr_key, &[0x31; 32]).unwrap().bytes,
        bitcoin::ScriptBuf::new_v1_p2tr(secp256k1::SECP256K1, internal, Some(root)).to_bytes()
    );
}

#[test]
fn custom_script_claims() {
    let mut keys = PublicKeys::new();
    keys.add_public_key(compressed(2));
    let pk: [u8; 33] = compressed(1).try_into().unwrap();

    let (built, utxo) = build(&input(proto::ClaimingScript::ScriptData(new_p2pk(&pk).bytes)), &keys).unwrap();
    assert_unsigned(&built);
    assert_eq!(utxo.signing_method, SigningMethod::Legacy);
    assert_eq!(utxo.spender_public_key, compressed(1));

    let script = new_p2pkh(&hash160(&compressed(2))).bytes;
    let (_, utxo) = build(&input(proto::ClaimingScript::ScriptData(script.clone())), &keys).unwrap();
    assert_eq!(utxo.prevout_script_pubkey.bytes, script);
    assert_eq!(utxo.spender_public_key, compressed(2));

    let script = new_p2wpkh(&hash160(&compressed(2))).bytes;
    let (_, utxo) = build(&input(proto::ClaimingScript::ScriptData(script.clone())), &keys).unwrap();
    assert_eq!(utxo.prevout_script_pubkey.bytes, script);
    assert_eq!(utxo.signing_method, SigningMethod::Segwit);

    let script = new_p2tr_dangerous_assume_tweaked(&[0x44; 32]).bytes;
    let (_, utxo) = build(&input(proto::ClaimingScript::ScriptData(script.clone())), &keys).unwrap();
    assert_eq!(utxo.prevout_script_pubkey.bytes, script);
    assert_eq!(utxo.signing_method, SigningMethod::Taproot);
    assert!(utxo.spender_public_key.is_empty());
    assert!(utxo.taproot_tweak.is_some());
}

#[test]
fn custom_script_that_pays_to_a_script_hash_is_not_supported() {
    let keys = PublicKeys::new();
    let p2sh = new_p2sh(&[0x11; 20]).bytes;
    assert_eq!(p2sh.len(), 23);
    let err = build(&input(proto::ClaimingScript::ScriptData(p2sh)), &keys).unwrap_err();
    assert_eq!(err, SigningErrorType::NotSupported);
    let p2wsh = new_p2wsh(&[0x11; 32]).bytes;
    let err = build(&input(proto::ClaimingScript::ScriptData(p2wsh)), &keys).unwrap_err();
    assert_eq!(err, SigningErrorType::NotSupported);
}

#[test]
fn custom_script_that_cannot_be_spent() {
    let keys = PublicKeys::new();
    let err = build(&input(proto::ClaimingScript::ScriptData(vec![0x6a, 0x01, 0x00])), &keys).unwrap_err();
    assert_eq!(err, SigningErrorType::InvalidUtxo);
    let err = build(&input(proto::ClaimingScript::ScriptData(vec![0x01, 0x02])), &keys).unwrap_err();
    assert_eq!(err, SigningErrorType::InvalidUtxo);
    let script = new_p2pkh(&[0x77; 20]).bytes;
    let err = build(&input(proto::ClaimingScript::ScriptData(script)), &keys).unwrap_err();
    assert_eq!(err, SigningErrorType::InvalidParams);
}

#[test]
fn claim_by_address() {
    let mut keys = PublicKeys::new();
    keys.add_public_key(compressed(2));
    let script = new_p2wpkh(&hash160(&compressed(2))).bytes;
    let address = format!("hx{}", hex(&script));
    let (built, utxo) = build(&input(proto::ClaimingScript::ReceiverAddress(address.clone())), &keys).unwrap();
    assert_unsigned(&built);
    assert_eq!(utxo.prevout_script_pubkey.bytes, script);
    assert_eq!(utxo.spender_public_key, compressed(2));

    let chain = chain();
    let described = input(proto::ClaimingScript::Unset);
    let dispatcher = UtxoProtobuf::<HexContext>::new(&chain, &described, &keys);
    let (_, by_address) = dispatcher.recipient_address(&address).unwrap();
    assert_eq!(by_address.prevout_script_pubkey.bytes, script);
    let (_, by_script) = dispatcher.recipient_script(Some(script.clone())).unwrap();
    assert_eq!(by_script.prevout_script_pubkey.bytes, script);
}

#[test]
fn claim_by_an_invalid_address() {
    let keys = PublicKeys::new();
    let err = build(&input(proto::ClaimingScript::ReceiverAddress(String::from("bc1nothex"))), &keys).unwrap_err();
    assert_eq!(err, SigningErrorType::InvalidAddress);
    let chain = chain();
    let described = input(proto::ClaimingScript::Unset);
    let dispatcher = UtxoProtobuf::<HexContext>::new(&chain, &described, &keys);
    assert_eq!(dispatcher.recipient_script(None).unwrap_err().kind(), SigningErrorType::InvalidAddress);
    // An address of a script that is not supported.
    let address = format!("hx{}", hex(&new_p2sh(&[0x11; 20]).bytes));
    let err = dispatcher.recipient_address(&address).unwrap_err();
    assert_eq!(err.kind(), SigningErrorType::NotSupported);
    assert_eq!(err.context_chain().len(), 2);
}

#[test]
fn schnorr_keys_are_read_with_or_without_parity_byte() {
    assert_eq!(parse_schnorr_pk(&x_only(1)).unwrap().bytes().to_vec(), x_only(1));
    assert_eq!(parse_schnorr_pk(&compressed(1)).unwrap().bytes().to_vec(), x_only(1));
    assert_eq!(parse_schnorr_pk(&[0xff; 32]).unwrap_err().kind(), SigningErrorType::InvalidPublicKey);
    let all = parse_schnorr_pks(&vec![x_only(1), compressed(2), x_only(3)]).unwrap();
    assert_eq!(all.len(), 3);
    assert_eq!(all[1].bytes().to_vec(), x_only(2));
    let err = parse_schnorr_pks(&vec![x_only(1), vec![0xff; 32], x_only(3)]).unwrap_err();
    assert_eq!(err.kind(), SigningErrorType::InvalidPublicKey);
    assert!(parse_schnorr_pks(&Vec::new()).unwrap().is_empty());
}

#[test]
fn key_with_signature_is_read() {
    let ty = SighashType::from_u32(1).unwrap();
    let pair = proto::PublicKeySignature { public_key: x_only(1), signature: vec![5; 64] };
    let (key, sig) = parse_schnorr_pubkey_sig(&pair, ty).unwrap();
    assert_eq!(key.bytes().to_vec(), x_only(1));
    let mut expected = vec![5u8; 64];
    expected.push(1);
    assert_eq!(sig.serialize(), expected);

    let pair = proto::PublicKeySignature { public_key: x_only(1), signature: vec![5; 63] };
    assert_eq!(parse_schnorr_pubkey_sig(&pair, ty).unwrap_err().kind(), SigningErrorType::InvalidParams);
    let pair = proto::PublicKeySignature { public_key: vec![0xff; 32], signature: vec![5; 64] };
    assert_eq!(parse_schnorr_pubkey_sig(&pair, ty).unwrap_err().kind(), SigningErrorType::InvalidPublicKey);
    let pair = proto::PublicKeySignature { public_key: x_only(1), signature: vec![5; 64] };
    let fork = SighashType::from_u32(0x41).unwrap();
    assert_eq!(parse_schnorr_pubkey_sig(&pair, fork).unwrap_err().kind(), SigningErrorType::InvalidParams);
}

#[test]
fn timelock_path_claim() {
    let keys = PublicKeys::new();
    let claim = proto::InputBuilder::BabylonTimelockPath(timelock(100, &[5, 3, 9], 2));
    let (built, utxo) = build(&builder_claim(claim), &keys).unwrap();
    assert_unsigned(&built);
    assert_eq!(utxo.signing_method, SigningMethod::Taproot);
    assert_eq!(utxo.spender_public_key, x_only(1));
    assert_eq!(utxo.amount, 7_000);
    let mut script = vec![0x20];
    script.extend_from_slice(&x_only(1));
    script.extend_from_slice(&[0xad, 0x01, 0x64, 0xb2]);
    assert_eq!(utxo.reveal_script_pubkey.bytes, script);
    let (leaf, separator) = utxo.leaf_hash_code_separator.unwrap();
    assert_eq!(leaf, leaf_hash(&script));
    assert_eq!(separator, u32::MAX);
    assert!(utxo.taproot_tweak.is_none());
    assert!(utxo.covenant_signatures.is_empty());

    // The revealed leaf leads to the root that the locking script commits to.
    let block = utxo.control_block.unwrap();
    let root = compute_root(leaf, &block.merkle_path);
    let unspendable = schnorr::PublicKey::try_from(&[
        0x02, 0x50, 0x92, 0x9b, 0x74, 0xc1, 0xa0, 0x49, 0x54, 0xb7, 0x8b, 0x4b, 0x60, 0x35, 0xe9,
        0x7a, 0x5e, 0x07, 0x8a, 0x5a, 0x0f, 0x28, 0xec, 0x96, 0xd5, 0x47, 0xbf, 0xee, 0x9a, 0xce,
        0x80, 0x3a, 0xc0,
    ])
    .unwrap();
    assert_eq!(
        utxo.prevout_script_pubkey.bytes,
        new_p2tr_script_path(&unspendable, &root).unwrap().bytes
    );
    assert_eq!(block.internal_key.to_vec(), unspendable.x_only().bytes().to_vec());
}

#[test]
fn timelock_path_claim_does_not_depend_on_the_order_of_the_committee() {
    let keys = PublicKeys::new();
    let (_, a) = build(&builder_claim(proto::InputBuilder::BabylonTimelockPath(timelock(100, &[5, 3, 9], 2))), &keys).unwrap();
    let (_, b) = build(&builder_claim(proto::InputBuilder::BabylonTimelockPath(timelock(100, &[9, 5, 3], 2))), &keys).unwrap();
    assert_eq!(a.prevout_script_pubkey.bytes, b.prevout_script_pubkey.bytes);
    assert_eq!(a.control_block.unwrap().serialize(), b.control_block.unwrap().serialize());
}

#[test]
fn timelock_path_claim_with_invalid_parameters() {
    let keys = PublicKeys::new();
    let claim = |t| builder_claim(proto::InputBuilder::BabylonTimelockPath(t));
    assert_eq!(build(&claim(timelock(65536, &[5, 3, 9], 2)), &keys).unwrap_err(), SigningErrorType::InvalidParams);
    assert!(build(&claim(timelock(65535, &[5, 3, 9], 2)), &keys).is_ok());
    assert_eq!(build(&claim(timelock(100, &[5, 3, 9], 0)), &keys).unwrap_err(), SigningErrorType::InvalidParams);
    assert_eq!(build(&claim(timelock(100, &[5, 3, 9], 4)), &keys).unwrap_err(), SigningErrorType::InvalidParams);
    assert_eq!(build(&claim(timelock(100, &[5, 3, 5], 2)), &keys).unwrap_err(), SigningErrorType::InvalidParams);
    assert_eq!(build(&claim(timelock(100, &[], 1)), &keys).unwrap_err(), SigningErrorType::InvalidParams);
    let mut bad = timelock(100, &[5, 3, 9], 2);
    bad.staker_public_key = vec![0xff; 32];
    assert_eq!(build(&claim(bad), &keys).unwrap_err(), SigningErrorType::InvalidPublicKey);
    let mut bad = timelock(100, &[5, 3, 9], 2);
    bad.finality_provider_public_key = vec![1; 5];
    assert_eq!(build(&claim(bad), &keys).unwrap_err(), SigningErrorType::InvalidPublicKey);
    let mut bad = timelock(100, &[5, 3, 9], 2);
    bad.covenant_committee_public_keys[1] = vec![0xff; 32];
    assert_eq!(build(&claim(bad), &keys).unwrap_err(), SigningErrorType::InvalidPublicKey);
}

#[test]
fn unbonding_path_claim() {
    let keys = PublicKeys::new();
    let ordered = sorted_x_only(&[5, 3, 9]);
    let claim = proto::InputBuilder::BabylonUnbondingPath(unbonding(
        &[5, 3, 9],
        2,
        vec![ordered[0].clone(), ordered[2].clone()],
    ));
    let (built, utxo) = build(&builder_claim(claim), &keys).unwrap();
    assert_unsigned(&built);
    assert_eq!(utxo.spender_public_key, x_only(1));
    let mut script = vec![0x20];
    script.extend_from_slice(&x_only(1));
    script.push(0xad);
    for (i, member) in ordered.iter().enumerate() {
        script.push(0x20);
        script.extend_from_slice(member);
        script.push(if i == 0 { 0xac } else { 0xba });
    }
    script.extend_from_slice(&[0x52, 0x9c]);
    assert_eq!(utxo.reveal_script_pubkey.bytes, script);
    let (leaf, separator) = utxo.leaf_hash_code_separator.unwrap();
    assert_eq!(leaf, leaf_hash(&script));
    assert_eq!(separator, u32::MAX);

    assert_eq!(utxo.covenant_signatures.len(), 3);
    let mut first = vec![1u8; 64];
    first.push(1);
    let mut second = vec![2u8; 64];
    second.push(1);
    assert_eq!(utxo.covenant_signatures[0].unwrap().serialize(), first);
    assert!(utxo.covenant_signatures[1].is_none());
    assert_eq!(utxo.covenant_signatures[2].unwrap().serialize(), second);

    // Timelock and unbonding claims are on the same output.
    let (_, by_timelock) = build(&builder_claim(proto::InputBuilder::BabylonTimelockPath(timelock(100, &[5, 3, 9], 2))), &keys).unwrap();
    assert_eq!(utxo.prevout_script_pubkey.bytes, by_timelock.prevout_script_pubkey.bytes);
    let block = utxo.control_block.unwrap();
    assert_eq!(
        compute_root(leaf, &block.merkle_path),
        compute_root(by_timelock.leaf_hash_code_separator.unwrap().0, &by_timelock.control_block.unwrap().merkle_path)
    );
}

#[test]
fn unbonding_path_claim_with_invalid_signatures() {
    let keys = PublicKeys::new();
    let ordered = sorted_x_only(&[5, 3, 9]);
    let claim = |u| builder_claim(proto::InputBuilder::BabylonUnbondingPath(u));
    // Out of committee order.
    let out_of_order = unbonding(&[5, 3, 9], 2, vec![ordered[2].clone(), ordered[0].clone()]);
    assert_eq!(build(&claim(out_of_order), &keys).unwrap_err(), SigningErrorType::InvalidParams);
    // Below the quorum.
    let few = unbonding(&[5, 3, 9], 2, vec![ordered[1].clone()]);
    assert_eq!(build(&claim(few), &keys).unwrap_err(), SigningErrorType::InvalidParams);
    // From one who is no member.
    let mut with_stranger = vec![ordered[0].clone(), x_only(20)];
    with_stranger.sort();
    let stranger = unbonding(&[5, 3, 9], 2, with_stranger);
    assert_eq!(build(&claim(stranger), &keys).unwrap_err(), SigningErrorType::InvalidParams);
    // A signature of the wrong length.
    let mut short = unbonding(&[5, 3, 9], 2, vec![ordered[0].clone(), ordered[1].clone()]);
    short.covenant_committee_signatures[1].signature = vec![1; 10];
    assert_eq!(build(&claim(short), &keys).unwrap_err(), SigningErrorType::InvalidParams);
    // A signer key that is no key.
    let mut bad = unbonding(&[5, 3, 9], 2, vec![ordered[0].clone(), ordered[1].clone()]);
    bad.covenant_committee_signatures[0].public_key = vec![0xff; 32];
    assert_eq!(build(&claim(bad), &keys).unwrap_err(), SigningErrorType::InvalidPublicKey);
    // An invalid committee.
    let invalid = unbonding(&[5, 3, 9], 4, vec![ordered[0].clone(), ordered[1].clone()]);
    assert_eq!(build(&claim(invalid), &keys).unwrap_err(), SigningErrorType::InvalidParams);
}

#[test]
fn default_builder() {
    let builder = UtxoBuilder::default();
    assert_eq!(builder.get_amount(), 0);
    assert_eq!(builder.get_sighash_type().raw_sighash(), 1);
    let unsigned = builder.unsigned_input();
    assert_eq!(unsigned.previous_output.hash, [0; 32]);
    assert_eq!(unsigned.previous_output.index, 0);
    assert_eq!(unsigned.sequence, u32::MAX);
}
