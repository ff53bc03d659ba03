//! Building a transaction input together with what signing it will need.

use vstd::prelude::*;
use crate::babylon::covenant_committee::signature_views;
use crate::ecdsa;
use crate::error::{SigningError, SigningErrorType, SigningResult};
use crate::hash::{hash160, hash160_digest, H160, H256, H264};
use crate::schnorr;
use crate::schnorr::root_view;
use crate::script::Script;
use crate::sighash::SighashType;
use crate::signature::BitcoinSchnorrSignature;
use crate::standard_script::{
    new_p2pk, new_p2pkh, new_p2tr_dangerous_assume_tweaked, new_p2tr_key_path, new_p2wpkh,
    p2pk_script, p2pkh_script, p2tr_script, p2tr_tweaked_script, witness_v0_script,
};
use crate::ordinals::{new_transfer_script, transfer_script};
use crate::schnorr::tap_tweaked_key;
use crate::taproot::{leaf_hash, tap_leaf_hash, ControlBlock, LEAF_VERSION_TAPSCRIPT};
use crate::taproot1_sighash::NO_CODE_SEPARATOR;
use crate::transaction::{OutPoint, TransactionInput};

verus! {

/// Which signature hash and which signature an input takes.
#[derive(Clone, Copy, Debug, PartialEq, Eq, Structural)]
pub enum SigningMethod {
    /// The digest of before segregated witness, and an ECDSA signature.
    Legacy,
    /// The digest of witness version 0, and an ECDSA signature.
    Segwit,
    /// The digest of taproot, and a Schnorr signature.
    Taproot,
}

/// How the signing key of a taproot key-path spend is tweaked.
#[derive(Clone, Copy, Debug)]
pub struct TaprootTweak {
    /// The root of the script tree that the output commits to, if any.
    pub merkle_root: Option<H256>,
}

/// What signing one input takes besides the transaction.
#[derive(Debug)]
pub struct UtxoToSign {
    /// The locking script of the output that is spent.
    pub prevout_script_pubkey: Script,
    /// The script that the signature commits to: the script code of a legacy
    /// or witness version 0 spend, the leaf script of a script-path spend.
    pub reveal_script_pubkey: Script,
    pub signing_method: SigningMethod,
    /// The key that signs, as the locking script holds or commits to it;
    /// empty where only the tweaked key is known.
    pub spender_public_key: Vec<u8>,
    /// The amount of the output that is spent.
    pub amount: i64,
    /// For a script-path spend: the leaf's hash and the code separator position.
    pub leaf_hash_code_separator: Option<(H256, u32)>,
    /// For a script-path spend: what the witness reveals besides the script.
    pub control_block: Option<ControlBlock>,
    /// For a key-path spend: how the signing key is tweaked.
    pub taproot_tweak: Option<TaprootTweak>,
    pub sighash_ty: SighashType,
    /// For a spend that covenant members co-sign: for each committee key, in
    /// canonical order, that member's signature if there is one.
    pub covenant_signatures: Vec<Option<BitcoinSchnorrSignature>>,
}

/// The signing context as plain values.
pub ghost struct UtxoView {
    pub prevout_script_pubkey: Seq<u8>,
    pub reveal_script_pubkey: Seq<u8>,
    pub signing_method: SigningMethod,
    pub spender_public_key: Seq<u8>,
    pub amount: i64,
    pub leaf_hash_code_separator: Option<(Seq<u8>, u32)>,
    pub control_block: Option<Seq<u8>>,
    pub taproot_tweak: Option<Option<Seq<u8>>>,
    pub sighash: u32,
    pub covenant_signatures: Seq<Option<Seq<u8>>>,
}

impl View for UtxoToSign {
    type V = UtxoView;

    open spec fn view(&self) -> UtxoView {
        UtxoView {
            prevout_script_pubkey: self.prevout_script_pubkey@,
            reveal_script_pubkey: self.reveal_script_pubkey@,
            signing_method: self.signing_method,
            spender_public_key: self.spender_public_key@,
            amount: self.amount,
            leaf_hash_code_separator: match self.leaf_hash_code_separator {
                Some((hash, separator)) => Some((hash@, separator)),
                None => None,
            },
            control_block: match self.control_block {
                Some(block) => Some(block.spec_serialize()),
                None => None,
            },
            taproot_tweak: match self.taproot_tweak {
                Some(tweak) => Some(root_view(tweak.merkle_root)),
                None => None,
            },
            sighash: self.sighash_ty.spec_raw(),
            covenant_signatures: signature_views(self.covenant_signatures@),
        }
    }
}

/// The outpoint, sequence number, amount and hash type of the input to build.
#[derive(Debug)]
pub struct UtxoBuilder {
    prev_txid: H256,
    prev_index: u32,
    sequence: u32,
    amount: i64,
    sighash_ty: SighashType,
}

/// What a builder holds, as plain values.
pub ghost struct BuilderView {
    pub prev_txid: Seq<u8>,
    pub prev_index: u32,
    pub sequence: u32,
    pub amount: i64,
    pub sighash: u32,
}

/// Whether `input` is the unsigned input that a builder stands for: its
/// outpoint and sequence number, with empty script and witness.
pub open spec fn is_unsigned_input(input: &TransactionInput, builder: BuilderView) -> bool {
    &&& input.previous_output.hash@ == builder.prev_txid
    &&& input.previous_output.index == builder.prev_index
    &&& input.sequence == builder.sequence
    &&& input.script_sig@.len() == 0
    &&& input.witness@.len() == 0
}

/// The signing context of an input that no script path and no committee is
/// part of.
pub open spec fn plain_utxo(
    builder: BuilderView,
    prevout_script_pubkey: Seq<u8>,
    reveal_script_pubkey: Seq<u8>,
    signing_method: SigningMethod,
    spender_public_key: Seq<u8>,
    taproot_tweak: Option<Option<Seq<u8>>>,
) -> UtxoView {
    UtxoView {
        prevout_script_pubkey,
        reveal_script_pubkey,
        signing_method,
        spender_public_key,
        amount: builder.amount,
        leaf_hash_code_separator: None,
        control_block: None,
        taproot_tweak,
        sighash: builder.sighash,
        covenant_signatures: Seq::empty(),
    }
}

/// The signing context of a spend that pays to a public key.
pub open spec fn p2pk_utxo(builder: BuilderView, pubkey: Seq<u8>) -> UtxoView {
    plain_utxo(
        builder,
        p2pk_script(pubkey),
        p2pk_script(pubkey),
        SigningMethod::Legacy,
        pubkey,
        None,
    )
}

/// The signing context of a spend that pays to the hash of a public key.
pub open spec fn p2pkh_utxo(builder: BuilderView, pubkey: Seq<u8>) -> UtxoView {
    plain_utxo(
        builder,
        p2pkh_script(hash160(pubkey)),
        p2pkh_script(hash160(pubkey)),
        SigningMethod::Legacy,
        pubkey,
        None,
    )
}

/// The signing context of a spend that pays to the witness hash of a public
/// key: the signature commits to the script that pays to the key's hash.
pub open spec fn p2wpkh_utxo(builder: BuilderView, pubkey: Seq<u8>) -> UtxoView {
    plain_utxo(
        builder,
        witness_v0_script(hash160(pubkey)),
        p2pkh_script(hash160(pubkey)),
        SigningMethod::Segwit,
        pubkey,
        None,
    )
}

/// The signing context of a taproot key-path spend, where the internal key
/// can be tweaked.
pub open spec fn p2tr_key_path_utxo(builder: BuilderView, pubkey: Seq<u8>) -> Option<UtxoView> {
    match p2tr_tweaked_script(pubkey, None) {
        Some(script) => Some(
            plain_utxo(builder, script, script, SigningMethod::Taproot, pubkey, Some(None)),
        ),
        None => None,
    }
}

/// The signing context of a taproot key-path spend of which only the output
/// key is known.
pub open spec fn p2tr_tweaked_utxo(builder: BuilderView, output_key: Seq<u8>) -> UtxoView {
    plain_utxo(
        builder,
        p2tr_script(output_key),
        p2tr_script(output_key),
        SigningMethod::Taproot,
        Seq::empty(),
        Some(None),
    )
}

/// The signing context of a spend that reveals the inscription of a BRC-20
/// transfer, where the recipient's key can be tweaked with the leaf: the
/// output pays to taproot under the recipient's key and a tree of the one
/// leaf that holds the inscription.
pub open spec fn brc20_transfer_utxo(
    builder: BuilderView,
    pubkey: Seq<u8>,
    ticker: Seq<u8>,
    amount: Seq<u8>,
) -> Option<UtxoView> {
    let script = transfer_script(pubkey.subrange(1, 33), ticker, amount);
    let root = tap_leaf_hash(script);
    match tap_tweaked_key(pubkey, Some(root)) {
        Some(output_key) => Some(
            UtxoView {
                prevout_script_pubkey: p2tr_script(output_key.subrange(1, 33)),
                reveal_script_pubkey: script,
                signing_method: SigningMethod::Taproot,
                spender_public_key: pubkey,
                amount: builder.amount,
                leaf_hash_code_separator: Some((root, 0xffff_ffffu32)),
                control_block: Some(
                    seq![
                        if output_key[0] == 3 {
                            0xc1u8
                        } else {
                            0xc0u8
                        },
                    ] + pubkey.subrange(1, 33),
                ),
                taproot_tweak: None,
                sighash: builder.sighash,
                covenant_signatures: Seq::empty(),
            },
        ),
        None => None,
    }
}

/// The outcome of claiming the inscription of a BRC-20 transfer:
/// `InvalidParams` unless the ticker has four bytes, `Internal` where the
/// recipient's key cannot be tweaked.
pub open spec fn spec_brc20_transfer(
    builder: BuilderView,
    pubkey: Seq<u8>,
    ticker: Seq<u8>,
    amount: Seq<u8>,
) -> Result<UtxoView, SigningErrorType> {
    if ticker.len() != 4 {
        Err(SigningErrorType::InvalidParams)
    } else {
        match brc20_transfer_utxo(builder, pubkey, ticker, amount) {
            Some(view) => Ok(view),
            None => Err(SigningErrorType::Internal),
        }
    }
}

impl View for UtxoBuilder {
    type V = BuilderView;

    closed spec fn view(&self) -> BuilderView {
        BuilderView {
            prev_txid: self.prev_txid@,
            prev_index: self.prev_index,
            sequence: self.sequence,
            amount: self.amount,
            sighash: self.sighash_ty.spec_raw(),
        }
    }
}

impl Default for UtxoBuilder {
    /// A builder for output 0 of the all-zero transaction hash, with the
    /// highest sequence number, no amount, and the hash type that commits to
    /// everything.
    fn default() -> (b: UtxoBuilder)
        ensures
            b@ == (BuilderView {
                prev_txid: Seq::new(32, |i: int| 0u8),
                prev_index: 0,
                sequence: 0xffff_ffff,
                amount: 0,
                sighash: 1,
            }),
    {
        let prev_txid: H256 = [0u8; 32];
        assert(prev_txid@ =~= Seq::new(32, |i: int| 0u8));
        UtxoBuilder {
            prev_txid,
            prev_index: 0,
            sequence: 0xffff_ffff,
            amount: 0,
            sighash_ty: SighashType::default(),
        }
    }
}

impl UtxoBuilder {
    /// The same builder for an output of the given transaction.
    pub fn prev_txid(self, txid: H256) -> (b: UtxoBuilder)
        ensures
            b@ == (BuilderView { prev_txid: txid@, ..self@ }),
    {
        UtxoBuilder { prev_txid: txid, ..self }
    }

    /// The same builder for the output of the given index.
    pub fn prev_index(self, index: u32) -> (b: UtxoBuilder)
        ensures
            b@ == (BuilderView { prev_index: index, ..self@ }),
    {
        UtxoBuilder { prev_index: index, ..self }
    }

    /// The same builder with the given sequence number.
    pub fn sequence(self, sequence: u32) -> (b: UtxoBuilder)
        ensures
            b@ == (BuilderView { sequence, ..self@ }),
    {
        UtxoBuilder { sequence, ..self }
    }

    /// The same builder for an output of the given amount.
    pub fn amount(self, amount: i64) -> (b: UtxoBuilder)
        ensures
            b@ == (BuilderView { amount, ..self@ }),
    {
        UtxoBuilder { amount, ..self }
    }

    /// The same builder with the given signature hash type.
    pub fn sighash_type(self, sighash_ty: SighashType) -> (b: UtxoBuilder)
        ensures
            b@ == (BuilderView { sighash: sighash_ty.spec_raw(), ..self@ }),
    {
        UtxoBuilder { sighash_ty, ..self }
    }

    /// The amount of the output that is spent.
    pub fn get_amount(&self) -> (amount: i64)
        ensures
            amount == self@.amount,
    {
        self.amount
    }

    /// The signature hash type.
    pub fn get_sighash_type(&self) -> (ty: SighashType)
        ensures
            ty.spec_raw() == self@.sighash,
    {
        self.sighash_ty
    }

    /// The unsigned input that the builder stands for.
    pub fn unsigned_input(&self) -> (input: TransactionInput)
        ensures
            is_unsigned_input(&input, self@),
    {
        TransactionInput {
            previous_output: OutPoint { hash: self.prev_txid, index: self.prev_index },
            script_sig: Script::new(),
            sequence: self.sequence,
            witness: Vec::new(),
        }
    }

    fn finish(
        self,
        prevout_script_pubkey: Script,
        reveal_script_pubkey: Script,
        signing_method: SigningMethod,
        spender_public_key: Vec<u8>,
        taproot_tweak: Option<TaprootTweak>,
    ) -> (r: (TransactionInput, UtxoToSign))
        ensures
            is_unsigned_input(&r.0, self@),
            r.1@ == plain_utxo(
                self@,
                prevout_script_pubkey@,
                reveal_script_pubkey@,
                signing_method,
                spender_public_key@,
                match taproot_tweak {
                    Some(tweak) => Some(root_view(tweak.merkle_root)),
                    None => None,
                },
            ),
    {
        let input = self.unsigned_input();
        let utxo = UtxoToSign {
            prevout_script_pubkey,
            reveal_script_pubkey,
            signing_method,
            spender_public_key,
            amount: self.amount,
            leaf_hash_code_separator: None,
            control_block: None,
            taproot_tweak,
            sighash_ty: self.sighash_ty,
            covenant_signatures: Vec::new(),
        };
        assert(utxo@.covenant_signatures =~= Seq::empty());
        (input, utxo)
    }

    /// The input that spends an output paying to `pubkey`.
    pub fn p2pk(self, pubkey: &ecdsa::PublicKey) -> (r: SigningResult<
        (TransactionInput, UtxoToSign),
    >)
        ensures
            r matches Ok((input, utxo)) && is_unsigned_input(&input, self@) && utxo@ == p2pk_utxo(
                self@,
                pubkey@,
            ),
    {
        let compressed: H264 = pubkey.compressed();
        let script = new_p2pk(&compressed);
        let reveal = script.duplicate();
        Ok(self.finish(script, reveal, SigningMethod::Legacy, pubkey.to_vec(), None))
    }

    /// The input that spends an output paying to the hash of `pubkey`.
    pub fn p2pkh(self, pubkey: &ecdsa::PublicKey) -> (r: SigningResult<
        (TransactionInput, UtxoToSign),
    >)
        ensures
            r matches Ok((input, utxo)) && is_unsigned_input(&input, self@) && utxo@ == p2pkh_utxo(
                self@,
                pubkey@,
            ),
    {
        let compressed: H264 = pubkey.compressed();
        let pubkey_hash: H160 = hash160_digest(compressed.as_slice());
        let script = new_p2pkh(&pubkey_hash);
        let reveal = script.duplicate();
        Ok(self.finish(script, reveal, SigningMethod::Legacy, pubkey.to_vec(), None))
    }

    /// The input that spends an output paying to the witness hash of `pubkey`.
    pub fn p2wpkh(self, pubkey: &ecdsa::PublicKey) -> (r: SigningResult<
        (TransactionInput, UtxoToSign),
    >)
        ensures
            r matches Ok((input, utxo)) && is_unsigned_input(&input, self@) && utxo@
                == p2wpkh_utxo(self@, pubkey@),
    {
        let compressed: H264 = pubkey.compressed();
        let pubkey_hash: H160 = hash160_digest(compressed.as_slice());
        let script = new_p2wpkh(&pubkey_hash);
        let reveal = new_p2pkh(&pubkey_hash);
        Ok(self.finish(script, reveal, SigningMethod::Segwit, pubkey.to_vec(), None))
    }

    /// The input that spends, by key path, a taproot output with internal key
    /// `pubkey` and no script tree. Fails with `Internal` where the key cannot
    /// be tweaked.
    pub fn p2tr_key_path(self, pubkey: &schnorr::PublicKey) -> (r: SigningResult<
        (TransactionInput, UtxoToSign),
    >)
        ensures
            match p2tr_key_path_utxo(self@, pubkey@) {
                Some(expected) => r matches Ok((input, utxo)) && is_unsigned_input(&input, self@)
                    && utxo@ == expected,
                None => r matches Err(e) && e.kind() == SigningErrorType::Internal,
            },
    {
        match new_p2tr_key_path(pubkey) {
            Some(script) => {
                let reveal = script.duplicate();
                Ok(
                    self.finish(
                        script,
                        reveal,
                        SigningMethod::Taproot,
                        pubkey.to_vec(),
                        Some(TaprootTweak { merkle_root: None }),
                    ),
                )
            },
            None => Err(
                SigningError::new(
                    SigningErrorType::Internal,
                    "The internal key cannot be tweaked",
                ),
            ),
        }
    }

    /// The input that spends an output whose one leaf inscribes a BRC-20
    /// transfer of `value` of the token `ticker` to `pubkey`.
    pub fn brc20_transfer(self, pubkey: &schnorr::PublicKey, ticker: String, value: String) -> (r:
        SigningResult<(TransactionInput, UtxoToSign)>)
        ensures
            match spec_brc20_transfer(
                self@,
                pubkey@,
                vstd::utf8::encode_utf8(ticker@),
                vstd::utf8::encode_utf8(value@),
            ) {
                Ok(expected) => r matches Ok((input, utxo)) && is_unsigned_input(&input, self@)
                    && utxo@ == expected,
                Err(kind) => r matches Err(e) && e.kind() == kind,
            },
    {
        let ticker_bytes: &[u8] = ticker.as_str().as_bytes();
        let value_bytes: &[u8] = value.as_str().as_bytes();
        if ticker_bytes.len() != 4 {
            return Err(
                SigningError::new(
                    SigningErrorType::InvalidParams,
                    "BRC20 ticker must be exactly 4 bytes length",
                ),
            );
        }
        let recipient = pubkey.x_only();
        let script = new_transfer_script(&recipient, ticker_bytes, value_bytes);
        let merkle_root: H256 = leaf_hash(script.as_slice());
        let output_key = match pubkey.tweak(Some(merkle_root)) {
            Some(key) => key,
            None => {
                return Err(
                    SigningError::new(
                        SigningErrorType::Internal,
                        "The internal key cannot be tweaked",
                    ),
                );
            },
        };
        let compressed: H264 = output_key.compressed();
        let block = ControlBlock {
            leaf_version: LEAF_VERSION_TAPSCRIPT,
            output_key_odd: compressed[0] == 3,
            internal_key: recipient.bytes(),
            merkle_path: Vec::new(),
        };
        assert(block.spec_serialize() =~= seq![
            if compressed[0] == 3 {
                0xc1u8
            } else {
                0xc0u8
            },
        ] + pubkey@.subrange(1, 33));
        let input = self.unsigned_input();
        let utxo = UtxoToSign {
            prevout_script_pubkey: new_p2tr_dangerous_assume_tweaked(&output_key.x_only().bytes()),
            reveal_script_pubkey: script,
            signing_method: SigningMethod::Taproot,
            spender_public_key: pubkey.to_vec(),
            amount: self.amount,
            leaf_hash_code_separator: Some((merkle_root, NO_CODE_SEPARATOR)),
            control_block: Some(block),
            taproot_tweak: None,
            sighash_ty: self.sighash_ty,
            covenant_signatures: Vec::new(),
        };
        assert(utxo@.covenant_signatures =~= Seq::empty());
        Ok((input, utxo))
    }

    /// The input that spends, by key path, a taproot output of which only the
    /// output key is known.
    pub fn p2tr_key_path_with_tweaked_pubkey(self, tweaked_pubkey: &H256) -> (r: SigningResult<
        (TransactionInput, UtxoToSign),
    >)
        ensures
            r matches Ok((input, utxo)) && is_unsigned_input(&input, self@) && utxo@
                == p2tr_tweaked_utxo(self@, tweaked_pubkey@),
    {
        let script = new_p2tr_dangerous_assume_tweaked(tweaked_pubkey);
        let reveal = script.duplicate();
        Ok(
            self.finish(
                script,
                reveal,
                SigningMethod::Taproot,
                Vec::new(),
                Some(TaprootTweak { merkle_root: None }),
            ),
        )
    }
}

} // verus!
