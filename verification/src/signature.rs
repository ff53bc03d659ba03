//! Signatures as they stand in a witness.

use vstd::prelude::*;
use crate::encode::append;
use crate::error::{SigningErrorType, SigningResult};
use crate::schnorr::Signature;
use crate::sighash::{is_taproot_sighash, SighashType};

verus! {

/// A BIP-340 signature with the signature hash type it was made for.
#[derive(Clone, Copy, Debug)]
pub struct BitcoinSchnorrSignature {
    signature: Signature,
    sighash_ty: SighashType,
}

/// A signature in a witness: its 64 bytes, and behind them the hash type
/// unless that is taproot's default, zero.
pub open spec fn witness_signature(signature: Seq<u8>, raw_sighash: u32) -> Seq<u8> {
    if raw_sighash == 0 {
        signature
    } else {
        signature + seq![raw_sighash as u8]
    }
}

impl BitcoinSchnorrSignature {
    /// The signature's 64 bytes.
    pub closed spec fn spec_signature(self) -> Seq<u8> {
        self.signature@
    }

    /// The signature hash type.
    pub closed spec fn spec_sighash_ty(self) -> SighashType {
        self.sighash_ty
    }

    /// The hash type is one of taproot's.
    #[verifier::type_invariant]
    pub closed spec fn wf(self) -> bool {
        is_taproot_sighash(self.sighash_ty.spec_raw())
    }

    /// The signature as it stands in a witness.
    pub open spec fn spec_serialize(self) -> Seq<u8> {
        witness_signature(self.spec_signature(), self.spec_sighash_ty().spec_raw())
    }

    /// A signature with its hash type. Fails with `InvalidParams` where the
    /// hash type is none of taproot's.
    pub fn new(signature: Signature, sighash_ty: SighashType) -> (r: SigningResult<
        BitcoinSchnorrSignature,
    >)
        ensures
            r is Ok <==> is_taproot_sighash(sighash_ty.spec_raw()),
            r matches Ok(sig) ==> sig.spec_signature() == signature@ && sig.spec_sighash_ty()
                == sighash_ty,
            r matches Err(e) ==> e.kind() == SigningErrorType::InvalidParams,
    {
        match sighash_ty.serialize_as_taproot() {
            Ok(_) => Ok(BitcoinSchnorrSignature { signature, sighash_ty }),
            Err(e) => Err(e),
        }
    }

    /// The signature as it stands in a witness.
    pub fn serialize(&self) -> (out: Vec<u8>)
        ensures
            out@ == self.spec_serialize(),
    {
        proof {
            use_type_invariant(self);
        }
        let mut out: Vec<u8> = Vec::new();
        let bytes: [u8; 64] = self.signature.bytes();
        append(&mut out, bytes.as_slice());
        let raw: u32 = self.sighash_ty.raw_sighash();
        if raw != 0 {
            out.push(raw as u8);
        }
        assert(out@ =~= self.spec_serialize());
        out
    }
}

} // verus!
