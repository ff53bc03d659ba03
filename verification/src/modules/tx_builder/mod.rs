//! Building transaction parts from their descriptions.

use vstd::prelude::*;
use crate::error::{SigningError, SigningErrorType, SigningResult};
use crate::schnorr::{secp256k1_x_only_valid, x_only_part, XOnlyPublicKey};

pub mod public_keys;
pub mod utxo_protobuf;

verus! {

/// What tells the addresses of one chain from those of another.
#[derive(Debug)]
pub struct BitcoinChainInfo {
    pub p2pkh_prefix: u8,
    pub p2sh_prefix: u8,
    pub hrp: Option<String>,
}

/// What a chain has to offer for inputs to be claimed by address.
pub trait UtxoContext {
    /// The locking script that `address` stands for on the chain that
    /// `chain_info` describes; `None` where it is no address of that chain.
    fn addr_to_script_pubkey(address: &str, chain_info: &BitcoinChainInfo) -> Option<Vec<u8>>;
}

/// The byte strings from which the keys of `pks` are read.
pub open spec fn x_only_parts(pks: Seq<Vec<u8>>) -> Seq<Seq<u8>> {
    Seq::new(pks.len(), |i: int| x_only_part(pks[i]@))
}

/// Whether each of `pks` holds a valid x-only key.
pub open spec fn all_x_only_valid(pks: Seq<Vec<u8>>) -> bool {
    forall|i: int| 0 <= i < pks.len() ==> secp256k1_x_only_valid(#[trigger] x_only_parts(pks)[i])
}

/// Reads an x-only key. Fails with `InvalidPublicKey` where the bytes hold none.
pub fn parse_schnorr_pk(bytes: &[u8]) -> (r: SigningResult<XOnlyPublicKey>)
    ensures
        r is Ok <==> secp256k1_x_only_valid(x_only_part(bytes@)),
        r matches Ok(key) ==> key@ == x_only_part(bytes@),
        r matches Err(e) ==> e.kind() == SigningErrorType::InvalidPublicKey,
{
    match XOnlyPublicKey::try_from(bytes) {
        Ok(key) => Ok(key),
        Err(e) => Err(SigningError::from_key_error(e, "Invalid x-only public key")),
    }
}

/// Reads x-only keys. Fails with `InvalidPublicKey` where one of them is invalid.
pub fn parse_schnorr_pks(pks: &Vec<Vec<u8>>) -> (r: SigningResult<Vec<XOnlyPublicKey>>)
    ensures
        r is Ok <==> all_x_only_valid(pks@),
        r matches Ok(keys) ==> crate::babylon::covenant_committee::key_views(keys@) == x_only_parts(
            pks@,
        ),
        r matches Err(e) ==> e.kind() == SigningErrorType::InvalidPublicKey,
{
    let mut keys: Vec<XOnlyPublicKey> = Vec::new();
    let mut i: usize = 0;
    while i < pks.len()
        invariant
            i <= pks@.len(),
            keys@.len() == i,
            forall|j: int| 0 <= j < i ==> secp256k1_x_only_valid(#[trigger] x_only_parts(pks@)[j]),
            forall|j: int| 0 <= j < i ==> (#[trigger] keys@[j])@ == x_only_parts(pks@)[j],
        decreases pks@.len() - i,
    {
        assert(x_only_parts(pks@)[i as int] == x_only_part(pks@[i as int]@));
        match parse_schnorr_pk(pks[i].as_slice()) {
            Ok(key) => {
                keys.push(key);
            },
            Err(e) => {
                return Err(e);
            },
        }
        i += 1;
    }
    assert(crate::babylon::covenant_committee::key_views(keys@) =~= x_only_parts(pks@));
    Ok(keys)
}

} // verus!
