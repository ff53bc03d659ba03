//! From the description of an input to the input itself and what signing it
//! will need.

use vstd::prelude::*;
use crate::babylon::covenant_committee::{
    canonical_order, committee_valid, key_views, signature_pairs, signatures_acceptable,
    signer_keys,
};
use crate::babylon::tx_builder::utxo::{
    timelock_path_utxo, unbonding_path_utxo, BabylonUtxoBuilder,
};
use crate::babylon::tx_builder::BabylonStakingParams;
use crate::ecdsa;
use crate::error::{SigningError, SigningErrorType, SigningResult};
use crate::hash::{array_from_slice, H160, H256};
use crate::modules::tx_builder::public_keys::PublicKeys;
use crate::modules::tx_builder::{
    all_x_only_valid, parse_schnorr_pk, parse_schnorr_pks, x_only_parts, BitcoinChainInfo,
    UtxoContext,
};
use crate::proto;
use crate::schnorr;
use crate::schnorr::{secp256k1_public_key, secp256k1_x_only_valid, x_only_part, XOnlyPublicKey};
use crate::script::Script;
use crate::sighash::{base_of, is_taproot_sighash, SighashType};
use crate::signature::{witness_signature, BitcoinSchnorrSignature};
use crate::standard_script::{spec_parse, ScriptShape, StandardScript, StandardScriptParser};
use crate::transaction::{OutPoint, TransactionInput};
use crate::utxo_builder::{
    is_unsigned_input, p2pk_utxo, p2pkh_utxo, p2tr_key_path_utxo, p2tr_tweaked_utxo, p2wpkh_utxo,
    spec_brc20_transfer, BuilderView, UtxoBuilder, UtxoToSign, UtxoView,
};

verus! {

/// What building an input comes to: the builder's values and the signing
/// context, or the kind of error.
pub type Outcome = Result<(BuilderView, UtxoView), SigningErrorType>;

/// Whether `r` is the outcome `expected`: the unsigned input of the builder
/// with the expected signing context, or an error of the expected kind.
pub open spec fn is_outcome(
    r: SigningResult<(TransactionInput, UtxoToSign)>,
    expected: Outcome,
) -> bool {
    match expected {
        Ok((builder, view)) => r matches Ok((input, utxo)) && is_unsigned_input(&input, builder)
            && utxo@ == view,
        Err(kind) => r matches Err(e) && e.kind() == kind,
    }
}

/// The outpoint that a description names: `InvalidParams` where it names
/// none, or a hash that is not of 32 bytes.
pub open spec fn spec_out_point(maybe_out_point: Option<proto::OutPoint>) -> Result<
    (Seq<u8>, u32),
    SigningErrorType,
> {
    match maybe_out_point {
        None => Err(SigningErrorType::InvalidParams),
        Some(out_point) => if out_point.hash@.len() == 32 {
            Ok((out_point.hash@, out_point.vout))
        } else {
            Err(SigningErrorType::InvalidParams)
        },
    }
}

/// The builder for a description: `InvalidParams` where the outpoint or the
/// signature hash type is invalid, `InvalidUtxoAmount` where the amount is
/// negative. The sequence number is the highest unless one is given.
pub open spec fn spec_prepare_builder(input: &proto::Input) -> Result<
    BuilderView,
    SigningErrorType,
> {
    match spec_out_point(input.out_point) {
        Err(kind) => Err(kind),
        Ok((hash, index)) => if base_of(input.sighash_type) is None {
            Err(SigningErrorType::InvalidParams)
        } else if input.value < 0 {
            Err(SigningErrorType::InvalidUtxoAmount)
        } else {
            Ok(
                BuilderView {
                    prev_txid: hash,
                    prev_index: index,
                    sequence: match input.sequence {
                        Some(sequence) => sequence,
                        None => 0xffff_ffffu32,
                    },
                    amount: input.value,
                    sighash: input.sighash_type,
                },
            )
        },
    }
}

/// The compressed form of the key that `data` encodes, or `InvalidPublicKey`.
pub open spec fn spec_public_key(data: Seq<u8>) -> Result<Seq<u8>, SigningErrorType> {
    match secp256k1_public_key(data) {
        Some(key) => Ok(key),
        None => Err(SigningErrorType::InvalidPublicKey),
    }
}

/// The compressed form of the key that a description gives or names by its
/// hash: `InvalidParams` where it gives neither, the hash is not of 20 bytes
/// or no key is found under it; `InvalidPublicKey` where the bytes are no key.
pub open spec fn spec_ecdsa_pubkey(
    public_keys: &PublicKeys,
    input: &proto::PublicKeyOrHash,
) -> Result<Seq<u8>, SigningErrorType> {
    match input {
        proto::PublicKeyOrHash::Pubkey(pubkey) => spec_public_key(pubkey@),
        proto::PublicKeyOrHash::Hash(hash) => if hash@.len() != 20 {
            Err(SigningErrorType::InvalidParams)
        } else {
            public_keys.spec_ecdsa_public_key(hash@)
        },
        proto::PublicKeyOrHash::Unset => Err(SigningErrorType::InvalidParams),
    }
}

/// The kinds of output that are claimed by a single key.
pub ghost enum KeyClaim {
    P2pk,
    P2pkh,
    P2wpkh,
    P2trKeyPath,
}

/// The outcome of a claim by a single key: the key is read first, then the
/// builder is prepared. A taproot key that cannot be tweaked gives `Internal`.
pub open spec fn spec_key_claim(
    input: &proto::Input,
    key: Result<Seq<u8>, SigningErrorType>,
    claim: KeyClaim,
) -> Outcome {
    match key {
        Err(kind) => Err(kind),
        Ok(pubkey) => match spec_prepare_builder(input) {
            Err(kind) => Err(kind),
            Ok(builder) => match claim {
                KeyClaim::P2pk => Ok((builder, p2pk_utxo(builder, pubkey))),
                KeyClaim::P2pkh => Ok((builder, p2pkh_utxo(builder, pubkey))),
                KeyClaim::P2wpkh => Ok((builder, p2wpkh_utxo(builder, pubkey))),
                KeyClaim::P2trKeyPath => match p2tr_key_path_utxo(builder, pubkey) {
                    Some(view) => Ok((builder, view)),
                    None => Err(SigningErrorType::Internal),
                },
            },
        },
    }
}

/// The outcome of a claim on the inscription of a BRC-20 transfer: the key is
/// read first, then the builder is prepared, then the ticker is checked.
pub open spec fn spec_brc20_inscribe(
    input: &proto::Input,
    inscription: &proto::InputBrc20Inscription,
) -> Outcome {
    match spec_public_key(inscription.inscribe_to@) {
        Err(kind) => Err(kind),
        Ok(pubkey) => match spec_prepare_builder(input) {
            Err(kind) => Err(kind),
            Ok(builder) => match spec_brc20_transfer(
                builder,
                pubkey,
                vstd::utf8::encode_utf8(inscription.ticker@),
                vstd::utf8::encode_utf8(inscription.transfer_amount@),
            ) {
                Ok(view) => Ok((builder, view)),
                Err(kind) => Err(kind),
            },
        },
    }
}

/// What a staking output was built from, as plain values.
pub ghost struct StakingParamsView {
    pub staker: Seq<u8>,
    pub locktime: u16,
    pub finality_provider: Seq<u8>,
    pub covenants: Seq<Seq<u8>>,
    pub quorum: u32,
}

/// The staking parameters that a description gives: `InvalidPublicKey` where
/// a key is invalid, `InvalidParams` where the staking time is above 65535.
/// The staker's key is read first, then the staking time, the finality
/// provider's key and the committee's keys.
pub open spec fn spec_staking_params(
    staker_public_key: Seq<u8>,
    staking_time: u32,
    finality_provider_public_key: Seq<u8>,
    covenant_committee_public_keys: Seq<Vec<u8>>,
    covenant_quorum: u32,
) -> Result<StakingParamsView, SigningErrorType> {
    if !secp256k1_x_only_valid(x_only_part(staker_public_key)) {
        Err(SigningErrorType::InvalidPublicKey)
    } else if staking_time > 0xffff {
        Err(SigningErrorType::InvalidParams)
    } else if !secp256k1_x_only_valid(x_only_part(finality_provider_public_key)) {
        Err(SigningErrorType::InvalidPublicKey)
    } else if !all_x_only_valid(covenant_committee_public_keys) {
        Err(SigningErrorType::InvalidPublicKey)
    } else {
        Ok(
            StakingParamsView {
                staker: x_only_part(staker_public_key),
                locktime: staking_time as u16,
                finality_provider: x_only_part(finality_provider_public_key),
                covenants: x_only_parts(covenant_committee_public_keys),
                quorum: covenant_quorum,
            },
        )
    }
}

/// The outcome of a claim by the timelock path: the parameters are read
/// first, then the builder is prepared, then the committee is checked.
pub open spec fn spec_babylon_timelock_path(
    input: &proto::Input,
    timelock: &proto::BabylonStakingTimelockPath,
) -> Outcome {
    match spec_staking_params(
        timelock.staker_public_key@,
        timelock.staking_time,
        timelock.finality_provider_public_key@,
        timelock.covenant_committee_public_keys@,
        timelock.covenant_quorum,
    ) {
        Err(kind) => Err(kind),
        Ok(params) => match spec_prepare_builder(input) {
            Err(kind) => Err(kind),
            Ok(builder) => if !committee_valid(params.covenants, params.quorum) {
                Err(SigningErrorType::InvalidParams)
            } else {
                match timelock_path_utxo(
                    builder,
                    params.staker,
                    params.locktime,
                    params.finality_provider,
                    params.covenants,
                    params.quorum,
                ) {
                    Some(view) => Ok((builder, view)),
                    None => Err(SigningErrorType::Internal),
                }
            },
        },
    }
}

/// A key with its signature as plain values: `InvalidPublicKey` where the key
/// is invalid, `InvalidParams` where the signature is not of 64 bytes or the
/// hash type none of taproot's.
pub open spec fn spec_pubkey_sig(pubkey_sig: &proto::PublicKeySignature, sighash: u32) -> Result<
    (Seq<u8>, Seq<u8>),
    SigningErrorType,
> {
    if !secp256k1_x_only_valid(x_only_part(pubkey_sig.public_key@)) {
        Err(SigningErrorType::InvalidPublicKey)
    } else if pubkey_sig.signature@.len() != 64 {
        Err(SigningErrorType::InvalidParams)
    } else if !is_taproot_sighash(sighash) {
        Err(SigningErrorType::InvalidParams)
    } else {
        Ok((x_only_part(pubkey_sig.public_key@), witness_signature(pubkey_sig.signature@, sighash)))
    }
}

/// Keys with their signatures as plain values, or the error of the first
/// that is invalid.
pub open spec fn spec_pubkey_sigs(list: Seq<proto::PublicKeySignature>, sighash: u32) -> Result<
    Seq<(Seq<u8>, Seq<u8>)>,
    SigningErrorType,
>
    decreases list.len(),
{
    if list.len() == 0 {
        Ok(Seq::empty())
    } else {
        match spec_pubkey_sigs(list.drop_last(), sighash) {
            Err(kind) => Err(kind),
            Ok(pairs) => match spec_pubkey_sig(&list.last(), sighash) {
                Err(kind) => Err(kind),
                Ok(pair) => Ok(pairs.push(pair)),
            },
        }
    }
}

/// The outcome of a claim by the unbonding path: the parameters are read
/// first, then the signature hash type and the signatures, then the builder
/// is prepared, then committee and signers are checked.
pub open spec fn spec_babylon_unbonding_path(
    input: &proto::Input,
    unbonding: &proto::BabylonStakingUnbondingPath,
) -> Outcome {
    match spec_staking_params(
        unbonding.staker_public_key@,
        unbonding.staking_time,
        unbonding.finality_provider_public_key@,
        unbonding.covenant_committee_public_keys@,
        unbonding.covenant_quorum,
    ) {
        Err(kind) => Err(kind),
        Ok(params) => if base_of(input.sighash_type) is None {
            Err(SigningErrorType::InvalidParams)
        } else {
            match spec_pubkey_sigs(unbonding.covenant_committee_signatures@, input.sighash_type) {
                Err(kind) => Err(kind),
                Ok(pairs) => match spec_prepare_builder(input) {
                    Err(kind) => Err(kind),
                    Ok(builder) => if !committee_valid(params.covenants, params.quorum)
                        || !signatures_acceptable(
                        canonical_order(params.covenants),
                        params.quorum,
                        signer_keys(pairs),
                    ) {
                        Err(SigningErrorType::InvalidParams)
                    } else {
                        match unbonding_path_utxo(
                            builder,
                            params.staker,
                            params.locktime,
                            params.finality_provider,
                            params.covenants,
                            params.quorum,
                            pairs,
                        ) {
                            Some(view) => Ok((builder, view)),
                            None => Err(SigningErrorType::Internal),
                        }
                    },
                },
            }
        },
    }
}

/// The outcome of a claim by the locking script itself: the builder is
/// prepared first, then the script is recognised. A script that pays to a
/// key hash takes the key from the lookup; one that pays to a script hash
/// gives `NotSupported`; one that begins with `OP_RETURN` gives `InvalidUtxo`.
pub open spec fn spec_custom_script(
    input: &proto::Input,
    public_keys: &PublicKeys,
    script: Seq<u8>,
) -> Outcome {
    match spec_prepare_builder(input) {
        Err(kind) => Err(kind),
        Ok(builder) => match spec_parse(script) {
            Err(kind) => Err(kind),
            Ok(shape) => match shape {
                ScriptShape::P2PK(key) => Ok((builder, p2pk_utxo(builder, key))),
                ScriptShape::P2PKH(hash) => match public_keys.spec_ecdsa_public_key(hash) {
                    Ok(key) => Ok((builder, p2pkh_utxo(builder, key))),
                    Err(kind) => Err(kind),
                },
                ScriptShape::P2WPKH(hash) => match public_keys.spec_ecdsa_public_key(hash) {
                    Ok(key) => Ok((builder, p2wpkh_utxo(builder, key))),
                    Err(kind) => Err(kind),
                },
                ScriptShape::P2TR(key) => Ok((builder, p2tr_tweaked_utxo(builder, key))),
                ScriptShape::P2SH(_) => Err(SigningErrorType::NotSupported),
                ScriptShape::P2WSH(_) => Err(SigningErrorType::NotSupported),
                ScriptShape::OpReturn(_) => Err(SigningErrorType::InvalidUtxo),
            },
        },
    }
}

/// The outcome of a claim by address, for what the address stands for:
/// `InvalidAddress` where it stands for nothing, else the outcome of the
/// claim by the script.
pub open spec fn spec_recipient_script(
    input: &proto::Input,
    public_keys: &PublicKeys,
    resolved: Option<Seq<u8>>,
) -> Outcome {
    match resolved {
        None => Err(SigningErrorType::InvalidAddress),
        Some(script) => spec_custom_script(input, public_keys, script),
    }
}

/// The outcome of a claim. A claim by address is decided by what the address
/// stands for: here it has the outcome of an address that stands for nothing.
pub open spec fn spec_claim(input: &proto::Input, public_keys: &PublicKeys) -> Outcome {
    match &input.claiming_script {
        proto::ClaimingScript::ScriptBuilder(builder) => match builder {
            proto::InputBuilder::P2pk(pubkey) => spec_key_claim(
                input,
                spec_public_key(pubkey@),
                KeyClaim::P2pk,
            ),
            proto::InputBuilder::P2pkh(pubkey_or_hash) => spec_key_claim(
                input,
                spec_ecdsa_pubkey(public_keys, pubkey_or_hash),
                KeyClaim::P2pkh,
            ),
            proto::InputBuilder::P2wpkh(pubkey_or_hash) => spec_key_claim(
                input,
                spec_ecdsa_pubkey(public_keys, pubkey_or_hash),
                KeyClaim::P2wpkh,
            ),
            proto::InputBuilder::P2trKeyPath(pubkey) => spec_key_claim(
                input,
                spec_public_key(pubkey@),
                KeyClaim::P2trKeyPath,
            ),
            proto::InputBuilder::Brc20Inscribe(inscription) => spec_brc20_inscribe(
                input,
                inscription,
            ),
            proto::InputBuilder::BabylonTimelockPath(timelock) => spec_babylon_timelock_path(
                input,
                timelock,
            ),
            proto::InputBuilder::BabylonUnbondingPath(unbonding) => spec_babylon_unbonding_path(
                input,
                unbonding,
            ),
            proto::InputBuilder::Unset => Err(SigningErrorType::InvalidParams),
        },
        proto::ClaimingScript::ScriptData(script) => spec_custom_script(
            input,
            public_keys,
            script@,
        ),
        proto::ClaimingScript::ReceiverAddress(_) => Err(SigningErrorType::InvalidAddress),
        proto::ClaimingScript::Unset => Err(SigningErrorType::InvalidParams),
    }
}

/// Whether `r` is an outcome of a claim by address, whatever the address
/// stands for.
pub open spec fn is_recipient_outcome(
    r: SigningResult<(TransactionInput, UtxoToSign)>,
    input: &proto::Input,
    public_keys: &PublicKeys,
) -> bool {
    exists|resolved: Option<Seq<u8>>|
        is_outcome(r, #[trigger] spec_recipient_script(input, public_keys, resolved))
}

/// Builds the input that a description describes.
pub struct UtxoProtobuf<'a, Context: UtxoContext> {
    chain_info: &'a BitcoinChainInfo,
    input: &'a proto::Input,
    public_keys: &'a PublicKeys,
    _phantom: core::marker::PhantomData<Context>,
}

impl<'a, Context: UtxoContext> UtxoProtobuf<'a, Context> {
    /// The description.
    pub closed spec fn spec_input(&self) -> &proto::Input {
        self.input
    }

    /// The key lookup.
    pub closed spec fn spec_public_keys(&self) -> &PublicKeys {
        self.public_keys
    }

    /// A builder for the description, on the chain that `chain_info`
    /// describes, with the keys that the request knows.
    pub fn new(
        chain_info: &'a BitcoinChainInfo,
        input: &'a proto::Input,
        public_keys: &'a PublicKeys,
    ) -> (r: Self)
        ensures
            r.spec_input() == input,
            r.spec_public_keys() == public_keys,
    {
        UtxoProtobuf { chain_info, input, public_keys, _phantom: core::marker::PhantomData }
    }

    /// The input for the description, by the way it claims the output. What
    /// an address stands for is the chain's to say.
    pub fn utxo_from_proto(self) -> (r: SigningResult<(TransactionInput, UtxoToSign)>)
        ensures
            match self.spec_input().claiming_script {
                proto::ClaimingScript::ReceiverAddress(_) => is_recipient_outcome(
                    r,
                    self.spec_input(),
                    self.spec_public_keys(),
                ),
                _ => is_outcome(r, spec_claim(self.spec_input(), self.spec_public_keys())),
            },
    {
        match &self.input.claiming_script {
            proto::ClaimingScript::ScriptBuilder(builder) => match builder {
                proto::InputBuilder::P2pk(pubkey) => self.p2pk(pubkey.as_slice()),
                proto::InputBuilder::P2pkh(pubkey_or_hash) => self.p2pkh(pubkey_or_hash),
                proto::InputBuilder::P2wpkh(pubkey_or_hash) => self.p2wpkh(pubkey_or_hash),
                proto::InputBuilder::P2trKeyPath(key_path) => self.p2tr_key_path(
                    key_path.as_slice(),
                ),
                proto::InputBuilder::Brc20Inscribe(inscription) => self.brc20_inscribe(inscription),
                proto::InputBuilder::BabylonTimelockPath(timelock) => self.babylon_timelock_path(
                    timelock,
                ),
                proto::InputBuilder::BabylonUnbondingPath(unbonding) => self.babylon_unbonding_path(
                    unbonding,
                ),
                proto::InputBuilder::Unset => Err(
                    SigningError::new(
                        SigningErrorType::InvalidParams,
                        "No Input Builder type provided",
                    ),
                ),
            },
            proto::ClaimingScript::ScriptData(script) => {
                let mut script_data: Vec<u8> = Vec::new();
                crate::encode::append(&mut script_data, script.as_slice());
                assert(script_data@ =~= script@);
                self.custom_script(script_data)
            },
            proto::ClaimingScript::ReceiverAddress(address) => self.recipient_address(
                address.as_str(),
            ),
            proto::ClaimingScript::Unset => Err(
                SigningError::new(
                    SigningErrorType::InvalidParams,
                    "No Input claiming script provided",
                ),
            ),
        }
    }

    /// The input that spends an output paying to the given public key.
    pub fn p2pk(&self, pubkey: &[u8]) -> (r: SigningResult<(TransactionInput, UtxoToSign)>)
        ensures
            is_outcome(
                r,
                spec_key_claim(self.spec_input(), spec_public_key(pubkey@), KeyClaim::P2pk),
            ),
    {
        let pubkey = match ecdsa::PublicKey::try_from(pubkey) {
            Ok(key) => key,
            Err(e) => {
                return Err(SigningError::from_key_error(e, "Invalid P2PK public key"));
            },
        };
        match self.prepare_builder() {
            Ok(builder) => builder.p2pk(&pubkey),
            Err(e) => Err(e),
        }
    }

    /// The input that spends an output paying to the hash of a public key.
    pub fn p2pkh(&self, pubkey_or_hash: &proto::PublicKeyOrHash) -> (r: SigningResult<
        (TransactionInput, UtxoToSign),
    >)
        ensures
            is_outcome(
                r,
                spec_key_claim(
                    self.spec_input(),
                    spec_ecdsa_pubkey(self.spec_public_keys(), pubkey_or_hash),
                    KeyClaim::P2pkh,
                ),
            ),
    {
        let pubkey = match self.get_ecdsa_pubkey_from_proto(pubkey_or_hash) {
            Ok(key) => key,
            Err(e) => {
                return Err(e);
            },
        };
        match self.prepare_builder() {
            Ok(builder) => builder.p2pkh(&pubkey),
            Err(e) => Err(e),
        }
    }

    /// The input that spends an output paying to the witness hash of a public key.
    pub fn p2wpkh(&self, pubkey_or_hash: &proto::PublicKeyOrHash) -> (r: SigningResult<
        (TransactionInput, UtxoToSign),
    >)
        ensures
            is_outcome(
                r,
                spec_key_claim(
                    self.spec_input(),
                    spec_ecdsa_pubkey(self.spec_public_keys(), pubkey_or_hash),
                    KeyClaim::P2wpkh,
                ),
            ),
    {
        let pubkey = match self.get_ecdsa_pubkey_from_proto(pubkey_or_hash) {
            Ok(key) => key,
            Err(e) => {
                return Err(e);
            },
        };
        match self.prepare_builder() {
            Ok(builder) => builder.p2wpkh(&pubkey),
            Err(e) => Err(e),
        }
    }

    /// The input that spends a taproot output by key path.
    pub fn p2tr_key_path(&self, pubkey: &[u8]) -> (r: SigningResult<(TransactionInput, UtxoToSign)>)
        ensures
            is_outcome(
                r,
                spec_key_claim(self.spec_input(), spec_public_key(pubkey@), KeyClaim::P2trKeyPath),
            ),
    {
        let public_key = match schnorr::PublicKey::try_from(pubkey) {
            Ok(key) => key,
            Err(e) => {
                return Err(SigningError::from_key_error(e, "Invalid P2TR public key"));
            },
        };
        match self.prepare_builder() {
            Ok(builder) => builder.p2tr_key_path(&public_key),
            Err(e) => Err(e),
        }
    }

    /// The input that spends an output that inscribes a BRC-20 transfer.
    pub fn brc20_inscribe(&self, inscription: &proto::InputBrc20Inscription) -> (r: SigningResult<
        (TransactionInput, UtxoToSign),
    >)
        ensures
            is_outcome(r, spec_brc20_inscribe(self.spec_input(), inscription)),
    {
        let public_key = match schnorr::PublicKey::try_from(inscription.inscribe_to.as_slice()) {
            Ok(key) => key,
            Err(e) => {
                return Err(SigningError::from_key_error(e, "Invalid inscription public key"));
            },
        };
        match self.prepare_builder() {
            Ok(builder) => builder.brc20_transfer(
                &public_key,
                inscription.ticker.clone(),
                inscription.transfer_amount.clone(),
            ),
            Err(e) => Err(e),
        }
    }

    /// The staking parameters of a description.
    fn staking_params(
        staker_public_key: &Vec<u8>,
        staking_time: u32,
        finality_provider_public_key: &Vec<u8>,
        covenant_committee_public_keys: &Vec<Vec<u8>>,
        covenant_quorum: u32,
    ) -> (r: SigningResult<BabylonStakingParams>)
        ensures
            match spec_staking_params(
                staker_public_key@,
                staking_time,
                finality_provider_public_key@,
                covenant_committee_public_keys@,
                covenant_quorum,
            ) {
                Ok(view) => r matches Ok(params) && params.staker@ == view.staker
                    && params.staking_locktime == view.locktime && params.finality_provider@
                    == view.finality_provider && key_views(params.covenants@) == view.covenants
                    && params.covenant_quorum == view.quorum,
                Err(kind) => r matches Err(e) && e.kind() == kind,
            },
    {
        let staker = match parse_schnorr_pk(staker_public_key.as_slice()) {
            Ok(key) => key,
            Err(e) => {
                return Err(e.context("Invalid stakerPublicKey"));
            },
        };
        if staking_time > 0xffff {
            return Err(
                SigningError::new(
                    SigningErrorType::InvalidParams,
                    "stakingTime cannot be greater than 65535",
                ),
            );
        }
        let staking_locktime: u16 = staking_time as u16;
        let finality_provider = match parse_schnorr_pk(finality_provider_public_key.as_slice()) {
            Ok(key) => key,
            Err(e) => {
                return Err(e.context("Invalid finalityProviderPublicKeys"));
            },
        };
        let covenants = match parse_schnorr_pks(covenant_committee_public_keys) {
            Ok(keys) => keys,
            Err(e) => {
                return Err(e.context("Invalid covenantCommitteePublicKeys"));
            },
        };
        Ok(
            BabylonStakingParams {
                staker,
                staking_locktime,
                finality_provider,
                covenants,
                covenant_quorum,
            },
        )
    }

    /// The input that spends a staking output by its timelock path.
    pub fn babylon_timelock_path(&self, timelock: &proto::BabylonStakingTimelockPath) -> (r:
        SigningResult<(TransactionInput, UtxoToSign)>)
        ensures
            is_outcome(r, spec_babylon_timelock_path(self.spec_input(), timelock)),
    {
        let params = match Self::staking_params(
            &timelock.staker_public_key,
            timelock.staking_time,
            &timelock.finality_provider_public_key,
            &timelock.covenant_committee_public_keys,
            timelock.covenant_quorum,
        ) {
            Ok(params) => params,
            Err(e) => {
                return Err(e);
            },
        };
        match self.prepare_builder() {
            Ok(builder) => builder.babylon_timelock_path(params),
            Err(e) => Err(e),
        }
    }

    /// The input that spends a staking output by its unbonding path.
    pub fn babylon_unbonding_path(&self, unbonding: &proto::BabylonStakingUnbondingPath) -> (r:
        SigningResult<(TransactionInput, UtxoToSign)>)
        ensures
            is_outcome(r, spec_babylon_unbonding_path(self.spec_input(), unbonding)),
    {
        let params = match Self::staking_params(
            &unbonding.staker_public_key,
            unbonding.staking_time,
            &unbonding.finality_provider_public_key,
            &unbonding.covenant_committee_public_keys,
            unbonding.covenant_quorum,
        ) {
            Ok(params) => params,
            Err(e) => {
                return Err(e);
            },
        };
        let sighash_ty = match self.sighash_ty() {
            Ok(ty) => ty,
            Err(e) => {
                return Err(e);
            },
        };
        let list = &unbonding.covenant_committee_signatures;
        let mut covenant_signatures: Vec<(XOnlyPublicKey, BitcoinSchnorrSignature)> = Vec::new();
        let mut i: usize = 0;
        assert(signature_pairs(covenant_signatures@) =~= Seq::empty());
        assert(list@.subrange(0, 0).len() == 0);
        while i < list.len()
            invariant
                i <= list@.len(),
                list@ == unbonding.covenant_committee_signatures@,
                sighash_ty.spec_raw() == self.spec_input().sighash_type,
                base_of(self.spec_input().sighash_type) is Some,
                spec_staking_params(
                    unbonding.staker_public_key@,
                    unbonding.staking_time,
                    unbonding.finality_provider_public_key@,
                    unbonding.covenant_committee_public_keys@,
                    unbonding.covenant_quorum,
                ) is Ok,
                spec_pubkey_sigs(list@.subrange(0, i as int), sighash_ty.spec_raw()) == Ok::<
                    Seq<(Seq<u8>, Seq<u8>)>,
                    SigningErrorType,
                >(signature_pairs(covenant_signatures@)),
            decreases list@.len() - i,
        {
            let ghost before = signature_pairs(covenant_signatures@);
            let ghost next = list@.subrange(0, i + 1);
            assert(next.drop_last() =~= list@.subrange(0, i as int));
            assert(next.last() == list@[i as int]);
            match parse_schnorr_pubkey_sig(&list[i], sighash_ty) {
                Ok(pair) => {
                    covenant_signatures.push(pair);
                    assert(signature_pairs(covenant_signatures@) =~= before.push(
                        (pair.0@, pair.1.spec_serialize()),
                    ));
                },
                Err(e) => {
                    proof {
                        lemma_pubkey_sigs_prefix_error(list@, i + 1, sighash_ty.spec_raw());
                    }
                    return Err(e);
                },
            }
            i += 1;
        }
        assert(list@.subrange(0, i as int) =~= list@);
        match self.prepare_builder() {
            Ok(builder) => builder.babylon_unbonding_path(params, &covenant_signatures),
            Err(e) => Err(e),
        }
    }

    /// The input that spends an output with the given locking script.
    pub fn custom_script(&self, script_data: Vec<u8>) -> (r: SigningResult<
        (TransactionInput, UtxoToSign),
    >)
        ensures
            is_outcome(
                r,
                spec_custom_script(self.spec_input(), self.spec_public_keys(), script_data@),
            ),
    {
        let script = Script::from(script_data);
        let builder = match self.prepare_builder() {
            Ok(builder) => builder,
            Err(e) => {
                return Err(e);
            },
        };
        let parser = StandardScriptParser {  };
        let parsed = match parser.parse(&script) {
            Ok(parsed) => parsed,
            Err(e) => {
                return Err(e);
            },
        };
        match parsed {
            StandardScript::P2PK(pk) => builder.p2pk(&pk),
            StandardScript::P2PKH(pubkey_hash) => {
                match self.public_keys.get_ecdsa_public_key(&pubkey_hash) {
                    Ok(pubkey) => builder.p2pkh(&pubkey),
                    Err(e) => Err(e),
                }
            },
            StandardScript::P2WPKH(pubkey_hash) => {
                match self.public_keys.get_ecdsa_public_key(&pubkey_hash) {
                    Ok(pubkey) => builder.p2wpkh(&pubkey),
                    Err(e) => Err(e),
                }
            },
            StandardScript::P2TR(tweaked_pubkey) => builder.p2tr_key_path_with_tweaked_pubkey(
                &tweaked_pubkey,
            ),
            StandardScript::P2SH(_) => Err(
                SigningError::new(
                    SigningErrorType::NotSupported,
                    "P2SH and P2WSH scriptPubkey's are not supported yet",
                ),
            ),
            StandardScript::P2WSH(_) => Err(
                SigningError::new(
                    SigningErrorType::NotSupported,
                    "P2SH and P2WSH scriptPubkey's are not supported yet",
                ),
            ),
            StandardScript::OpReturn(_) => Err(
                SigningError::new(
                    SigningErrorType::InvalidUtxo,
                    "Cannot spend an OP_RETURN output",
                ),
            ),
        }
    }

    /// The input that spends an output that paid to an address, given what
    /// the address stands for. Fails with `InvalidAddress` where it stands
    /// for nothing.
    pub fn recipient_script(&self, resolved: Option<Vec<u8>>) -> (r: SigningResult<
        (TransactionInput, UtxoToSign),
    >)
        ensures
            is_outcome(
                r,
                spec_recipient_script(
                    self.spec_input(),
                    self.spec_public_keys(),
                    match resolved {
                        Some(script) => Some(script@),
                        None => None,
                    },
                ),
            ),
    {
        match resolved {
            Some(claiming_script_pubkey) => match self.custom_script(claiming_script_pubkey) {
                Ok(built) => Ok(built),
                Err(e) => Err(e.context("Error handling input recipient")),
            },
            None => Err(
                SigningError::new(
                    SigningErrorType::InvalidAddress,
                    "Invalid claiming script recipient address",
                ),
            ),
        }
    }

    /// The input that spends an output that paid to the given address. What
    /// the address stands for is the chain's to say.
    pub fn recipient_address(&self, addr_str: &str) -> (r: SigningResult<
        (TransactionInput, UtxoToSign),
    >)
        ensures
            is_recipient_outcome(r, self.spec_input(), self.spec_public_keys()),
    {
        let resolved = Context::addr_to_script_pubkey(addr_str, self.chain_info);
        let ghost view: Option<Seq<u8>> = if resolved is Some {
            Some(resolved->0@)
        } else {
            None
        };
        let r = self.recipient_script(resolved);
        assert(is_outcome(r, spec_recipient_script(self.spec_input(), self.spec_public_keys(), view)));
        r
    }

    /// The builder with the description's outpoint, amount, sequence number
    /// and signature hash type.
    pub fn prepare_builder(&self) -> (r: SigningResult<UtxoBuilder>)
        ensures
            match spec_prepare_builder(self.spec_input()) {
                Ok(view) => r matches Ok(builder) && builder@ == view,
                Err(kind) => r matches Err(e) && e.kind() == kind,
            },
    {
        let out_point = match parse_out_point(&self.input.out_point) {
            Ok(out_point) => out_point,
            Err(e) => {
                return Err(e);
            },
        };
        let sighash_ty = match self.sighash_ty() {
            Ok(ty) => ty,
            Err(e) => {
                return Err(e);
            },
        };
        if self.input.value < 0 {
            return Err(
                SigningError::new(
                    SigningErrorType::InvalidUtxoAmount,
                    "UTXO amount cannot be negative",
                ),
            );
        }
        // The highest sequence number unless one is given.
        let sequence: u32 = match self.input.sequence {
            Some(sequence) => sequence,
            None => 0xffff_ffff,
        };
        Ok(
            UtxoBuilder::default().prev_txid(out_point.hash).prev_index(out_point.index).sequence(
                sequence,
            ).amount(self.input.value).sighash_type(sighash_ty),
        )
    }

    /// The key that a description gives, or names by its hash.
    fn get_ecdsa_pubkey_from_proto(&self, input: &proto::PublicKeyOrHash) -> (r: SigningResult<
        ecdsa::PublicKey,
    >)
        ensures
            match spec_ecdsa_pubkey(self.spec_public_keys(), input) {
                Ok(key) => r matches Ok(found) && found@ == key,
                Err(kind) => r matches Err(e) && e.kind() == kind,
            },
    {
        let pubkey_data: &[u8] = match input {
            proto::PublicKeyOrHash::Pubkey(pubkey) => pubkey.as_slice(),
            proto::PublicKeyOrHash::Hash(hash) => {
                let hash: H160 = match array_from_slice::<20>(hash.as_slice()) {
                    Some(hash) => hash,
                    None => {
                        return Err(
                            SigningError::new(
                                SigningErrorType::InvalidParams,
                                "Expected 20 bytes public key hash",
                            ),
                        );
                    },
                };
                return self.public_keys.get_ecdsa_public_key(&hash);
            },
            proto::PublicKeyOrHash::Unset => {
                return Err(
                    SigningError::new(
                        SigningErrorType::InvalidParams,
                        "Expected a public key or its hash",
                    ),
                );
            },
        };
        match ecdsa::PublicKey::try_from(pubkey_data) {
            Ok(key) => Ok(key),
            Err(e) => Err(
                SigningError::from_key_error(e, "Expected a valid ecdsa secp256k1 public key"),
            ),
        }
    }

    fn sighash_ty(&self) -> (r: SigningResult<SighashType>)
        ensures
            r is Ok <==> base_of(self.spec_input().sighash_type) is Some,
            r matches Ok(ty) ==> ty.spec_raw() == self.spec_input().sighash_type,
            r matches Err(e) ==> e.kind() == SigningErrorType::InvalidParams,
    {
        SighashType::from_u32(self.input.sighash_type)
    }
}

/// Where a prefix of the list fails, the list fails with the same error.
proof fn lemma_pubkey_sigs_prefix_error(
    list: Seq<proto::PublicKeySignature>,
    n: int,
    sighash: u32,
)
    requires
        0 <= n <= list.len(),
        spec_pubkey_sigs(list.subrange(0, n), sighash) is Err,
    ensures
        spec_pubkey_sigs(list, sighash) == spec_pubkey_sigs(list.subrange(0, n), sighash),
    decreases list.len() - n,
{
    if n < list.len() {
        let next = list.subrange(0, n + 1);
        assert(next.drop_last() =~= list.subrange(0, n));
        lemma_pubkey_sigs_prefix_error(list, n + 1, sighash);
    } else {
        assert(list.subrange(0, n) =~= list);
    }
}

/// The outpoint that a description names. Fails with `InvalidParams` where it
/// names none, or a hash that is not of 32 bytes.
pub fn parse_out_point(maybe_out_point: &Option<proto::OutPoint>) -> (r: SigningResult<OutPoint>)
    ensures
        match spec_out_point(*maybe_out_point) {
            Ok((hash, index)) => r matches Ok(out_point) && out_point.hash@ == hash
                && out_point.index == index,
            Err(kind) => r matches Err(e) && e.kind() == kind,
        },
{
    let out_point = match maybe_out_point {
        Some(out_point) => out_point,
        None => {
            return Err(
                SigningError::new(
                    SigningErrorType::InvalidParams,
                    "No OutPoint provided for a UTXO",
                ),
            );
        },
    };
    let hash: H256 = match array_from_slice::<32>(out_point.hash.as_slice()) {
        Some(hash) => hash,
        None => {
            return Err(SigningError::new(SigningErrorType::InvalidParams, "Invalid previous txid"));
        },
    };
    Ok(OutPoint { hash, index: out_point.vout })
}

/// A key and the signature it gave, for the given signature hash type. Fails
/// with `InvalidPublicKey` where the key is invalid, and with `InvalidParams`
/// where the signature is not of 64 bytes or the hash type none of taproot's.
pub fn parse_schnorr_pubkey_sig(
    pubkey_sig: &proto::PublicKeySignature,
    sighash_ty: SighashType,
) -> (r: SigningResult<(XOnlyPublicKey, BitcoinSchnorrSignature)>)
    ensures
        match spec_pubkey_sig(pubkey_sig, sighash_ty.spec_raw()) {
            Ok(pair) => r matches Ok((pk, sig)) && (pk@, sig.spec_serialize()) == pair,
            Err(kind) => r matches Err(e) && e.kind() == kind,
        },
{
    let pk = match parse_schnorr_pk(pubkey_sig.public_key.as_slice()) {
        Ok(pk) => pk,
        Err(e) => {
            return Err(e);
        },
    };
    let sig = match schnorr::Signature::try_from(pubkey_sig.signature.as_slice()) {
        Ok(sig) => sig,
        Err(_) => {
            return Err(SigningError::new(SigningErrorType::InvalidParams, "Invalid signature"));
        },
    };
    match BitcoinSchnorrSignature::new(sig, sighash_ty) {
        Ok(btc_sign) => Ok((pk, btc_sign)),
        Err(e) => Err(e),
    }
}

} // verus!
