//! The standard locking scripts: how each is built, and how a script is
//! recognised as one of them.

use vstd::prelude::*;
use crate::ecdsa;
use crate::error::{SigningError, SigningErrorType, SigningResult};
use crate::hash::{copy_range, H160, H256, H264};
use crate::schnorr;
use crate::schnorr::{secp256k1_public_key, tap_tweaked_key};
use crate::script::{
    push_data, Script, OP_0, OP_1, OP_CHECKSIG, OP_DUP, OP_EQUAL, OP_EQUALVERIFY, OP_HASH160,
    OP_RETURN,
};

verus! {

/// Pay to public key: a push of the key, then `OP_CHECKSIG`.
pub open spec fn p2pk_script(pubkey: Seq<u8>) -> Seq<u8> {
    push_data(pubkey) + seq![0xacu8]
}

/// Pay to public key hash.
pub open spec fn p2pkh_script(pubkey_hash: Seq<u8>) -> Seq<u8> {
    seq![0x76u8, 0xa9u8] + push_data(pubkey_hash) + seq![0x88u8, 0xacu8]
}

/// Pay to script hash.
pub open spec fn p2sh_script(script_hash: Seq<u8>) -> Seq<u8> {
    seq![0xa9u8] + push_data(script_hash) + seq![0x87u8]
}

/// A witness program of version 0: pay to witness public key hash with a hash
/// of 20 bytes, pay to witness script hash with one of 32.
pub open spec fn witness_v0_script(program: Seq<u8>) -> Seq<u8> {
    seq![0x00u8] + push_data(program)
}

/// Pay to taproot: a witness program of version 1 that holds the output key's
/// x coordinate.
pub open spec fn p2tr_script(output_key: Seq<u8>) -> Seq<u8> {
    seq![0x51u8] + push_data(output_key)
}

/// Pay to taproot for a compressed internal key and an optional script tree,
/// where the key can be tweaked.
pub open spec fn p2tr_tweaked_script(
    internal_key: Seq<u8>,
    merkle_root: Option<Seq<u8>>,
) -> Option<Seq<u8>> {
    match tap_tweaked_key(internal_key, merkle_root) {
        Some(output_key) => Some(p2tr_script(output_key.subrange(1, 33))),
        None => None,
    }
}

/// The locking script that pays to a public key.
pub fn new_p2pk(pubkey: &H264) -> (s: Script)
    ensures
        s@ == p2pk_script(pubkey@),
{
    let mut s = Script::new();
    s.push_slice(pubkey.as_slice());
    s.push(OP_CHECKSIG);
    assert(s@ =~= p2pk_script(pubkey@));
    s
}

/// The locking script that pays to a public key hash.
pub fn new_p2pkh(pubkey_hash: &H160) -> (s: Script)
    ensures
        s@ == p2pkh_script(pubkey_hash@),
{
    let mut s = Script::new();
    s.push(OP_DUP);
    s.push(OP_HASH160);
    s.push_slice(pubkey_hash.as_slice());
    s.push(OP_EQUALVERIFY);
    s.push(OP_CHECKSIG);
    assert(s@ =~= p2pkh_script(pubkey_hash@));
    s
}

/// The locking script that pays to a script hash.
pub fn new_p2sh(script_hash: &H160) -> (s: Script)
    ensures
        s@ == p2sh_script(script_hash@),
{
    let mut s = Script::new();
    s.push(OP_HASH160);
    s.push_slice(script_hash.as_slice());
    s.push(OP_EQUAL);
    assert(s@ =~= p2sh_script(script_hash@));
    s
}

/// The locking script that pays to a witness public key hash.
pub fn new_p2wpkh(pubkey_hash: &H160) -> (s: Script)
    ensures
        s@ == witness_v0_script(pubkey_hash@),
{
    let mut s = Script::new();
    s.push(OP_0);
    s.push_slice(pubkey_hash.as_slice());
    assert(s@ =~= witness_v0_script(pubkey_hash@));
    s
}

/// The locking script that pays to a witness script hash.
pub fn new_p2wsh(script_hash: &H256) -> (s: Script)
    ensures
        s@ == witness_v0_script(script_hash@),
{
    let mut s = Script::new();
    s.push(OP_0);
    s.push_slice(script_hash.as_slice());
    assert(s@ =~= witness_v0_script(script_hash@));
    s
}

/// The locking script that pays to taproot, for an output key that is taken
/// as already tweaked.
pub fn new_p2tr_dangerous_assume_tweaked(output_key: &H256) -> (s: Script)
    ensures
        s@ == p2tr_script(output_key@),
{
    let mut s = Script::new();
    s.push(OP_1);
    s.push_slice(output_key.as_slice());
    assert(s@ =~= p2tr_script(output_key@));
    s
}

/// The locking script that pays to taproot by key path: the internal key is
/// tweaked without a script tree. `None` where the key cannot be tweaked.
pub fn new_p2tr_key_path(internal_key: &schnorr::PublicKey) -> (r: Option<Script>)
    ensures
        r is Some <==> p2tr_tweaked_script(internal_key@, None) is Some,
        r matches Some(s) ==> Some(s@) == p2tr_tweaked_script(internal_key@, None),
{
    match internal_key.tweak(None) {
        Some(output_key) => Some(new_p2tr_dangerous_assume_tweaked(&output_key.x_only().bytes())),
        None => None,
    }
}

/// The locking script that pays to taproot by script path: the internal key
/// is tweaked with the root of the script tree. `None` where the key cannot be
/// tweaked.
pub fn new_p2tr_script_path(internal_key: &schnorr::PublicKey, merkle_root: &H256) -> (r: Option<
    Script,
>)
    ensures
        r is Some <==> p2tr_tweaked_script(internal_key@, Some(merkle_root@)) is Some,
        r matches Some(s) ==> Some(s@) == p2tr_tweaked_script(internal_key@, Some(merkle_root@)),
{
    match internal_key.tweak(Some(*merkle_root)) {
        Some(output_key) => Some(new_p2tr_dangerous_assume_tweaked(&output_key.x_only().bytes())),
        None => None,
    }
}

/// Whether a script pays to a public key, compressed or uncompressed.
pub open spec fn is_p2pk(s: Seq<u8>) -> bool {
    ||| s.len() == 35 && s[0] == 33 && s[34] == 0xac
    ||| s.len() == 67 && s[0] == 65 && s[66] == 0xac
}

/// Whether a script pays to a public key hash.
pub open spec fn is_p2pkh(s: Seq<u8>) -> bool {
    s.len() == 25 && s[0] == 0x76 && s[1] == 0xa9 && s[2] == 20 && s[23] == 0x88 && s[24] == 0xac
}

/// Whether a script pays to a script hash.
pub open spec fn is_p2sh(s: Seq<u8>) -> bool {
    s.len() == 23 && s[0] == 0xa9 && s[1] == 20 && s[22] == 0x87
}

/// Whether a script pays to a witness public key hash.
pub open spec fn is_p2wpkh(s: Seq<u8>) -> bool {
    s.len() == 22 && s[0] == 0x00 && s[1] == 20
}

/// Whether a script pays to a witness script hash.
pub open spec fn is_p2wsh(s: Seq<u8>) -> bool {
    s.len() == 34 && s[0] == 0x00 && s[1] == 32
}

/// Whether a script pays to taproot.
pub open spec fn is_p2tr(s: Seq<u8>) -> bool {
    s.len() == 34 && s[0] == 0x51 && s[1] == 32
}

/// Whether a script begins with `OP_RETURN`.
pub open spec fn is_op_return(s: Seq<u8>) -> bool {
    s.len() > 0 && s[0] == 0x6a
}

/// What a standard script holds.
pub ghost enum ScriptShape {
    /// Pay to public key, with the key in compressed form.
    P2PK(Seq<u8>),
    /// Pay to public key hash, with the hash.
    P2PKH(Seq<u8>),
    /// Pay to script hash, with the hash.
    P2SH(Seq<u8>),
    /// Pay to witness public key hash, with the hash.
    P2WPKH(Seq<u8>),
    /// Pay to witness script hash, with the hash.
    P2WSH(Seq<u8>),
    /// Pay to taproot, with the output key's x coordinate.
    P2TR(Seq<u8>),
    /// What follows `OP_RETURN`.
    OpReturn(Seq<u8>),
}

/// A script recognised as one of the standard scripts.
#[derive(Debug)]
pub enum StandardScript {
    P2PK(ecdsa::PublicKey),
    P2PKH(H160),
    P2SH(H160),
    P2WPKH(H160),
    P2WSH(H256),
    P2TR(H256),
    OpReturn(Vec<u8>),
}

impl StandardScript {
    /// The script's kind and what it holds.
    pub open spec fn shape(&self) -> ScriptShape {
        match self {
            StandardScript::P2PK(key) => ScriptShape::P2PK(key@),
            StandardScript::P2PKH(hash) => ScriptShape::P2PKH(hash@),
            StandardScript::P2SH(hash) => ScriptShape::P2SH(hash@),
            StandardScript::P2WPKH(hash) => ScriptShape::P2WPKH(hash@),
            StandardScript::P2WSH(hash) => ScriptShape::P2WSH(hash@),
            StandardScript::P2TR(key) => ScriptShape::P2TR(key@),
            StandardScript::OpReturn(payload) => ScriptShape::OpReturn(payload@),
        }
    }
}

/// What a script is recognised as. A script that pays to a public key must
/// hold a valid one, else the error is `InvalidPublicKey`; a script of no
/// standard kind gives `InvalidUtxo`.
pub open spec fn spec_parse(s: Seq<u8>) -> Result<ScriptShape, SigningErrorType> {
    if is_p2pk(s) {
        match secp256k1_public_key(s.subrange(1, s.len() - 1)) {
            Some(key) => Ok(ScriptShape::P2PK(key)),
            None => Err(SigningErrorType::InvalidPublicKey),
        }
    } else if is_p2pkh(s) {
        Ok(ScriptShape::P2PKH(s.subrange(3, 23)))
    } else if is_p2sh(s) {
        Ok(ScriptShape::P2SH(s.subrange(2, 22)))
    } else if is_p2wpkh(s) {
        Ok(ScriptShape::P2WPKH(s.subrange(2, 22)))
    } else if is_p2wsh(s) {
        Ok(ScriptShape::P2WSH(s.subrange(2, 34)))
    } else if is_p2tr(s) {
        Ok(ScriptShape::P2TR(s.subrange(2, 34)))
    } else if is_op_return(s) {
        Ok(ScriptShape::OpReturn(s.subrange(1, s.len() as int)))
    } else {
        Err(SigningErrorType::InvalidUtxo)
    }
}

/// Recognises standard scripts.
pub struct StandardScriptParser {}

impl StandardScriptParser {
    /// Recognises `script` as one of the standard scripts.
    pub fn parse(&self, script: &Script) -> (r: SigningResult<StandardScript>)
        ensures
            match spec_parse(script@) {
                Ok(shape) => r matches Ok(parsed) && parsed.shape() == shape,
                Err(kind) => r matches Err(e) && e.kind() == kind,
            },
    {
        let b: &[u8] = script.as_slice();
        let n: usize = b.len();
        if (n == 35 && b[0] == 33 && b[34] == OP_CHECKSIG) || (n == 67 && b[0] == 65 && b[66]
            == OP_CHECKSIG) {
            let key_bytes: &[u8] = vstd::slice::slice_subrange(b, 1, n - 1);
            return match ecdsa::PublicKey::try_from(key_bytes) {
                Ok(key) => Ok(StandardScript::P2PK(key)),
                Err(e) => Err(
                    SigningError::from_key_error(
                        e,
                        "P2PK scriptPubkey must contain a valid ecdsa secp256k1 public key",
                    ),
                ),
            };
        }
        if n == 25 && b[0] == OP_DUP && b[1] == OP_HASH160 && b[2] == 20 && b[23] == OP_EQUALVERIFY
            && b[24] == OP_CHECKSIG {
            return Ok(StandardScript::P2PKH(copy_range::<20>(b, 3)));
        }
        if n == 23 && b[0] == OP_HASH160 && b[1] == 20 && b[22] == OP_EQUAL {
            return Ok(StandardScript::P2SH(copy_range::<20>(b, 2)));
        }
        if n == 22 && b[0] == OP_0 && b[1] == 20 {
            return Ok(StandardScript::P2WPKH(copy_range::<20>(b, 2)));
        }
        if n == 34 && b[0] == OP_0 && b[1] == 32 {
            return Ok(StandardScript::P2WSH(copy_range::<32>(b, 2)));
        }
        if n == 34 && b[0] == OP_1 && b[1] == 32 {
            return Ok(StandardScript::P2TR(copy_range::<32>(b, 2)));
        }
        if n > 0 && b[0] == OP_RETURN {
            let payload: Vec<u8> = vstd::slice::slice_to_vec(vstd::slice::slice_subrange(b, 1, n));
            return Ok(StandardScript::OpReturn(payload));
        }
        Err(
            SigningError::new(
                SigningErrorType::InvalidUtxo,
                "The given custom script is not supported",
            ),
        )
    }
}

} // verus!
