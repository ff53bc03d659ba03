//! Public keys on secp256k1 as ECDSA signatures use them.

use vstd::prelude::*;
use crate::encode::append;
use crate::error::KeyPairError;
use crate::hash::H264;
use crate::schnorr::{parse_public_key, secp256k1_public_key};

verus! {

/// A point on secp256k1, held in its compressed form of 33 bytes.
#[derive(Clone, Copy, Debug)]
pub struct PublicKey {
    bytes: H264,
}

impl PublicKey {
    /// The key's 33 compressed bytes.
    pub closed spec fn spec_bytes(self) -> H264 {
        self.bytes
    }

    /// Reads a public key from its compressed or uncompressed encoding.
    pub fn try_from(value: &[u8]) -> (r: Result<PublicKey, KeyPairError>)
        ensures
            r is Ok <==> secp256k1_public_key(value@) is Some,
            r matches Ok(key) ==> Some(key@) == secp256k1_public_key(value@),
            r matches Err(e) ==> e == KeyPairError::InvalidPublicKey,
    {
        match parse_public_key(value) {
            Some(bytes) => Ok(PublicKey { bytes }),
            None => Err(KeyPairError::InvalidPublicKey),
        }
    }

    /// The key's 33 compressed bytes.
    pub fn compressed(&self) -> (out: H264)
        ensures
            out == self.spec_bytes(),
    {
        self.bytes
    }

    /// The key's 33 compressed bytes.
    pub fn to_vec(&self) -> (out: Vec<u8>)
        ensures
            out@ == self@,
    {
        let mut out: Vec<u8> = Vec::new();
        append(&mut out, self.bytes.as_slice());
        assert(out@ =~= self@);
        out
    }
}

impl View for PublicKey {
    type V = Seq<u8>;

    open spec fn view(&self) -> Seq<u8> {
        self.spec_bytes()@
    }
}

} // verus!
