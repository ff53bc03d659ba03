//! The public keys that a signing request knows, found by their hash.

use vstd::prelude::*;
use crate::ecdsa;
use crate::error::{SigningError, SigningErrorType, SigningResult};
use crate::hash::{bytes_eq, hash160, hash160_digest, H160};
use crate::schnorr::secp256k1_public_key;

verus! {

/// Public keys by the RIPEMD-160 of the SHA-256 of their bytes.
#[derive(Debug)]
pub struct PublicKeys {
    entries: Vec<(H160, Vec<u8>)>,
}

/// The key that was last added under `hash`, if any.
pub open spec fn lookup(entries: Seq<(H160, Vec<u8>)>, hash: Seq<u8>) -> Option<Seq<u8>>
    decreases entries.len(),
{
    if entries.len() == 0 {
        None
    } else if entries.last().0@ == hash {
        Some(entries.last().1@)
    } else {
        lookup(entries.drop_last(), hash)
    }
}

impl PublicKeys {
    /// The key that is found under `hash`, if any.
    pub closed spec fn spec_get(&self, hash: Seq<u8>) -> Option<Seq<u8>> {
        lookup(self.entries@, hash)
    }

    /// The compressed form of the key found under `hash`: `InvalidParams`
    /// where none is found, `InvalidPublicKey` where what is found is no key.
    pub open spec fn spec_ecdsa_public_key(&self, hash: Seq<u8>) -> Result<
        Seq<u8>,
        SigningErrorType,
    > {
        match self.spec_get(hash) {
            None => Err(SigningErrorType::InvalidParams),
            Some(data) => match secp256k1_public_key(data) {
                Some(key) => Ok(key),
                None => Err(SigningErrorType::InvalidPublicKey),
            },
        }
    }

    /// No keys.
    pub fn new() -> (keys: PublicKeys)
        ensures
            forall|hash: Seq<u8>| keys.spec_get(hash) is None,
    {
        PublicKeys { entries: Vec::new() }
    }

    /// Adds a key under its hash. A key added before under that hash gives way.
    pub fn add_public_key(&mut self, public_key: Vec<u8>)
        ensures
            forall|hash: Seq<u8>|
                #[trigger] final(self).spec_get(hash) == if hash == hash160(public_key@) {
                    Some(public_key@)
                } else {
                    old(self).spec_get(hash)
                },
    {
        let hash: H160 = hash160_digest(public_key.as_slice());
        let ghost before = self.entries@;
        self.entries.push((hash, public_key));
        assert(self.entries@.drop_last() =~= before);
    }

    /// The key found under `hash`. Fails with `InvalidParams` where there is none.
    pub fn get_public_key(&self, hash: &H160) -> (r: SigningResult<&[u8]>)
        ensures
            match self.spec_get(hash@) {
                Some(key) => r matches Ok(data) && data@ == key,
                None => r matches Err(e) && e.kind() == SigningErrorType::InvalidParams,
            },
    {
        let mut n: usize = self.entries.len();
        assert(self.entries@.subrange(0, n as int) =~= self.entries@);
        while n > 0
            invariant
                n <= self.entries@.len(),
                lookup(self.entries@, hash@) == lookup(self.entries@.subrange(0, n as int), hash@),
            decreases n,
        {
            let ghost prefix = self.entries@.subrange(0, n as int);
            assert(prefix.last() == self.entries@[n - 1]);
            assert(prefix.drop_last() =~= self.entries@.subrange(0, n - 1));
            if bytes_eq(self.entries[n - 1].0.as_slice(), hash.as_slice()) {
                return Ok(self.entries[n - 1].1.as_slice());
            }
            n -= 1;
        }
        Err(
            SigningError::new(
                SigningErrorType::InvalidParams,
                "Missing a public key corresponding to the pubkey hash",
            ),
        )
    }

    /// The key found under `hash`, read as a point. Fails with `InvalidParams`
    /// where none is found, and with `InvalidPublicKey` where what is found is
    /// no key.
    pub fn get_ecdsa_public_key(&self, hash: &H160) -> (r: SigningResult<ecdsa::PublicKey>)
        ensures
            match self.spec_ecdsa_public_key(hash@) {
                Ok(key) => r matches Ok(found) && found@ == key,
                Err(kind) => r matches Err(e) && e.kind() == kind,
            },
    {
        let data: &[u8] = match self.get_public_key(hash) {
            Ok(data) => data,
            Err(e) => {
                return Err(e);
            },
        };
        match ecdsa::PublicKey::try_from(data) {
            Ok(key) => Ok(key),
            Err(e) => Err(
                SigningError::from_key_error(e, "Expected a valid ecdsa secp256k1 public key"),
            ),
        }
    }
}

} // verus!
