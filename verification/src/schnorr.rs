//! Public keys on secp256k1 as BIP-340 and BIP-341 use them.

use vstd::prelude::*;
use crate::encode::append;
use crate::error::KeyPairError;
use crate::hash::{copy_range, tag_tap_tweak, tagged_hash, tagged_hash_digest, Tag, H256, H264};

verus! {

/// The 33-byte compressed form of the point on secp256k1 that `data` encodes,
/// where `data` is an encoding of a point that libsecp256k1 accepts.
pub uninterp spec fn secp256k1_public_key(data: Seq<u8>) -> Option<Seq<u8>>;

/// Whether `data` is the 32-byte x coordinate of a point on secp256k1.
pub uninterp spec fn secp256k1_x_only_valid(data: Seq<u8>) -> bool;

/// The x coordinate and the oddness of the y coordinate of the point with x
/// coordinate `key` and even y, plus `tweak` times the generator; `None` where
/// `key` is no x coordinate, `tweak` not below the curve order or the sum the
/// point at infinity.
pub uninterp spec fn secp256k1_x_only_tweaked(key: Seq<u8>, tweak: Seq<u8>) -> Option<
    (Seq<u8>, bool),
>;

/// Whether `signature` is a BIP-340 signature of `message` under the x-only `key`.
pub uninterp spec fn schnorr_signature_valid(
    signature: Seq<u8>,
    message: Seq<u8>,
    key: Seq<u8>,
) -> bool;

/// Calls `secp256k1::PublicKey::from_slice` and, on the key it gives,
/// `serialize`. Trusted: the outcome depends on the bytes alone.
#[verifier::external_body]
pub(crate) fn parse_public_key(data: &[u8]) -> (r: Option<H264>)
    ensures
        r matches Some(k) ==> secp256k1_public_key(data@) == Some(k@),
        r is None ==> secp256k1_public_key(data@) is None,
{
    match secp256k1::PublicKey::from_slice(data) {
        Ok(key) => Some(key.serialize()),
        Err(_) => None,
    }
}

/// Calls `secp256k1::XOnlyPublicKey::from_slice`. Trusted: it accepts only
/// 32 bytes, and whether it accepts them depends on the bytes alone.
#[verifier::external_body]
fn x_only_is_valid(data: &[u8]) -> (ok: bool)
    ensures
        ok == secp256k1_x_only_valid(data@),
        ok ==> data@.len() == 32,
{
    secp256k1::XOnlyPublicKey::from_slice(data).is_ok()
}

/// Calls `secp256k1::XOnlyPublicKey::add_tweak` on the key and the scalar that
/// the bytes encode. Trusted: the outcome depends on the bytes alone, and is
/// `None` where either does not parse or the tweaked key is invalid.
#[verifier::external_body]
fn x_only_add_tweak(key: &H256, tweak: &H256) -> (r: Option<(H256, bool)>)
    ensures
        r matches Some((k, odd)) ==> secp256k1_x_only_tweaked(key@, tweak@) == Some((k@, odd)),
        r is None ==> secp256k1_x_only_tweaked(key@, tweak@) is None,
{
    let point = secp256k1::XOnlyPublicKey::from_slice(key).ok()?;
    let scalar = secp256k1::Scalar::from_be_bytes(*tweak).ok()?;
    let (out, parity) = point.add_tweak(secp256k1::SECP256K1, &scalar).ok()?;
    match parity {
        secp256k1::Parity::Even => Some((out.serialize(), false)),
        secp256k1::Parity::Odd => Some((out.serialize(), true)),
    }
}

/// Calls `secp256k1::schnorr::Signature::verify` on what the bytes encode.
/// Trusted: the outcome depends on the bytes alone.
#[verifier::external_body]
fn schnorr_verify(signature: &[u8; 64], message: &H256, key: &H256) -> (ok: bool)
    ensures
        ok == schnorr_signature_valid(signature@, message@, key@),
{
    let parsed = (
        secp256k1::schnorr::Signature::from_slice(signature),
        secp256k1::Message::from_slice(message),
        secp256k1::XOnlyPublicKey::from_slice(key),
    );
    match parsed {
        (Ok(sig), Ok(msg), Ok(point)) => sig.verify(&msg, &point).is_ok(),
        _ => false,
    }
}

/// A BIP-340 signature: 64 bytes.
#[derive(Clone, Copy, Debug)]
pub struct Signature {
    bytes: [u8; 64],
}

/// A public key as BIP-340 uses it: the x coordinate of a point with even y.
#[derive(Clone, Copy, Debug)]
pub struct XOnlyPublicKey {
    bytes: H256,
}

/// A point on secp256k1, held in its compressed form of 33 bytes.
#[derive(Clone, Copy, Debug)]
pub struct PublicKey {
    bytes: H264,
}

/// The bytes from which an x-only key is read: a leading parity byte of a
/// 33-byte string is dropped.
pub open spec fn x_only_part(value: Seq<u8>) -> Seq<u8> {
    if value.len() == 33 {
        value.subrange(1, 33)
    } else {
        value
    }
}

/// The message of the tweak hash: the internal key's x coordinate, then the
/// script tree's root where there is one.
pub open spec fn tap_tweak_message(internal_key: Seq<u8>, merkle_root: Option<Seq<u8>>) -> Seq<
    u8,
> {
    match merkle_root {
        Some(root) => internal_key + root,
        None => internal_key,
    }
}

/// The bytes of an optional root.
pub open spec fn root_view(merkle_root: Option<H256>) -> Option<Seq<u8>> {
    match merkle_root {
        Some(root) => Some(root@),
        None => None,
    }
}

/// The tweak of BIP-341 for an internal key and an optional script tree.
pub open spec fn tap_tweak_hash(internal_key: Seq<u8>, merkle_root: Option<Seq<u8>>) -> Seq<u8> {
    tagged_hash(tag_tap_tweak(), tap_tweak_message(internal_key, merkle_root))
}

/// The compressed output key of BIP-341 for a compressed internal key: its x
/// coordinate tweaked by the tweak hash, behind `0x02` for an even and `0x03`
/// for an odd y coordinate.
pub open spec fn tap_tweaked_key(compressed: Seq<u8>, merkle_root: Option<Seq<u8>>) -> Option<
    Seq<u8>,
> {
    let x = compressed.subrange(1, 33);
    match secp256k1_x_only_tweaked(x, tap_tweak_hash(x, merkle_root)) {
        Some((tweaked, odd)) => Some(
            seq![
                if odd {
                    3u8
                } else {
                    2u8
                },
            ] + tweaked,
        ),
        None => None,
    }
}

impl Signature {
    /// The signature's 64 bytes.
    pub closed spec fn spec_bytes(self) -> [u8; 64] {
        self.bytes
    }

    /// Reads a signature: exactly 64 bytes.
    pub fn try_from(value: &[u8]) -> (r: Result<Signature, KeyPairError>)
        ensures
            r is Ok <==> value@.len() == 64,
            r matches Ok(sig) ==> sig@ == value@,
            r matches Err(e) ==> e == KeyPairError::InvalidSignature,
    {
        if value.len() != 64 {
            return Err(KeyPairError::InvalidSignature);
        }
        let bytes: [u8; 64] = copy_range::<64>(value, 0);
        assert(bytes@ =~= value@);
        Ok(Signature { bytes })
    }

    /// The signature's 64 bytes.
    pub fn bytes(&self) -> (out: [u8; 64])
        ensures
            out == self.spec_bytes(),
    {
        self.bytes
    }
}

impl View for Signature {
    type V = Seq<u8>;

    open spec fn view(&self) -> Seq<u8> {
        self.spec_bytes()@
    }
}

impl XOnlyPublicKey {
    /// The key's 32 bytes.
    pub closed spec fn spec_bytes(self) -> H256 {
        self.bytes
    }

    /// Reads an x-only key from 32 bytes, or from 33 of which the first is
    /// dropped. Fails where what is left is not the x coordinate of a point.
    pub fn try_from(value: &[u8]) -> (r: Result<XOnlyPublicKey, KeyPairError>)
        ensures
            r is Ok <==> secp256k1_x_only_valid(x_only_part(value@)),
            r matches Ok(key) ==> key@ == x_only_part(value@),
            r matches Err(e) ==> e == KeyPairError::InvalidPublicKey,
    {
        let x_only_slice: &[u8] = if value.len() == 33 {
            vstd::slice::slice_subrange(value, 1, 33)
        } else {
            value
        };
        if !x_only_is_valid(x_only_slice) {
            return Err(KeyPairError::InvalidPublicKey);
        }
        let bytes: H256 = copy_range::<32>(x_only_slice, 0);
        assert(bytes@ =~= x_only_slice@);
        Ok(XOnlyPublicKey { bytes })
    }

    /// The key's 32 bytes.
    pub fn bytes(&self) -> (out: H256)
        ensures
            out == self.spec_bytes(),
    {
        self.bytes
    }

    /// The key's 32 bytes.
    pub fn as_slice(&self) -> (out: &[u8])
        ensures
            out@ == self@,
    {
        self.bytes.as_slice()
    }

    /// Whether `signature` signs `message` under this key.
    pub fn verify(&self, signature: Signature, message: H256) -> (ok: bool)
        ensures
            ok == schnorr_signature_valid(signature@, message@, self@),
    {
        schnorr_verify(&signature.bytes, &message, &self.bytes)
    }
}

impl View for XOnlyPublicKey {
    type V = Seq<u8>;

    open spec fn view(&self) -> Seq<u8> {
        self.spec_bytes()@
    }
}

impl PublicKey {
    /// The key's 33 compressed bytes.
    pub closed spec fn spec_bytes(self) -> H264 {
        self.bytes
    }

    /// Reads a public key from its compressed or uncompressed encoding.
    pub fn try_from(value: &[u8]) -> (r: Result<PublicKey, KeyPairError>)
        ensures
            r is Ok <==> secp256k1_public_key(value@) is Some,
            r matches Ok(key) ==> Some(key@) == secp256k1_public_key(value@),
            r matches Err(e) ==> e == KeyPairError::InvalidPublicKey,
    {
        match parse_public_key(value) {
            Some(bytes) => Ok(PublicKey { bytes }),
            None => Err(KeyPairError::InvalidPublicKey),
        }
    }

    /// The key from 33 bytes that are known to be a compressed point.
    pub(crate) fn from_compressed(bytes: H264) -> (key: PublicKey)
        ensures
            key.spec_bytes() == bytes,
    {
        PublicKey { bytes }
    }

    /// The key's 33 compressed bytes.
    pub fn compressed(&self) -> (out: H264)
        ensures
            out == self.spec_bytes(),
    {
        self.bytes
    }

    /// The key's 33 compressed bytes.
    pub fn to_vec(&self) -> (out: Vec<u8>)
        ensures
            out@ == self@,
    {
        let mut out: Vec<u8> = Vec::new();
        append(&mut out, self.bytes.as_slice());
        assert(out@ =~= self@);
        out
    }

    /// The x coordinate alone: the compressed form without its first byte.
    pub fn x_only(&self) -> (key: XOnlyPublicKey)
        ensures
            key@ == self@.subrange(1, 33),
    {
        XOnlyPublicKey { bytes: copy_range::<32>(self.bytes.as_slice(), 1) }
    }

    /// The output key of BIP-341 for this internal key and an optional script
    /// tree. `None` where the tweak is no valid scalar or leads to the point at
    /// infinity.
    pub fn tweak(&self, tweak: Option<H256>) -> (r: Option<PublicKey>)
        ensures
            r is Some <==> tap_tweaked_key(self@, root_view(tweak)) is Some,
            r matches Some(key) ==> Some(key@) == tap_tweaked_key(self@, root_view(tweak)),
    {
        let x_only: H256 = copy_range::<32>(self.bytes.as_slice(), 1);
        let mut message: Vec<u8> = Vec::new();
        append(&mut message, x_only.as_slice());
        match &tweak {
            Some(root) => {
                append(&mut message, root.as_slice());
            },
            None => {},
        }
        assert(message@ =~= tap_tweak_message(x_only@, root_view(tweak)));
        let tweak_hash: H256 = tagged_hash_digest(Tag::TapTweak, message.as_slice());
        match x_only_add_tweak(&x_only, &tweak_hash) {
            Some((tweaked, odd)) => {
                let mut bytes: H264 = [0u8; 33];
                bytes[0] = if odd { 3u8 } else { 2u8 };
                let mut i: usize = 0;
                while i < 32
                    invariant
                        i <= 32,
                        bytes@[0] == (if odd { 3u8 } else { 2u8 }),
                        forall|j: int| 0 <= j < i ==> bytes@[j + 1] == tweaked@[j],
                    decreases 32 - i,
                {
                    bytes[i + 1] = tweaked[i];
                    i += 1;
                }
                assert(bytes@ =~= seq![if odd { 3u8 } else { 2u8 }] + tweaked@);
                Some(PublicKey { bytes })
            },
            None => None,
        }
    }

    /// Whether `signature` signs `message` under this key's x coordinate.
    pub fn verify(&self, signature: Signature, message: H256) -> (ok: bool)
        ensures
            ok == schnorr_signature_valid(signature@, message@, self@.subrange(1, 33)),
    {
        self.x_only().verify(signature, message)
    }
}

impl View for PublicKey {
    type V = Seq<u8>;

    open spec fn view(&self) -> Seq<u8> {
        self.spec_bytes()@
    }
}

} // verus!
