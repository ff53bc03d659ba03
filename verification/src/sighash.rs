//! Signature hash types: which parts of a transaction a signature commits to.

use vstd::prelude::*;
use crate::error::{SigningError, SigningErrorType, SigningResult};

verus! {

/// The base type of a signature hash type.
#[derive(Clone, Copy, Debug, PartialEq, Eq, Structural)]
pub enum SighashBase {
    /// Taproot's default: commits as `All` does.
    UseDefault,
    /// Commits to all outputs.
    All,
    /// Commits to no output.
    NoOutputs,
    /// Commits to the output at the input's own index.
    Single,
}

/// A signature hash type: the flag word as supplied, and its base type.
#[derive(Clone, Copy, Debug, PartialEq, Eq, Structural)]
pub struct SighashType {
    raw_sighash: u32,
    base: SighashBase,
}

/// The base type that the low four bits of a flag word name, if any.
pub open spec fn base_of(raw: u32) -> Option<SighashBase> {
    let low = raw % 16;
    if low == 0 {
        Some(SighashBase::UseDefault)
    } else if low == 1 {
        Some(SighashBase::All)
    } else if low == 2 {
        Some(SighashBase::NoOutputs)
    } else if low == 3 {
        Some(SighashBase::Single)
    } else {
        None
    }
}

/// Whether a flag word is one of the seven signature hash types of taproot.
pub open spec fn is_taproot_sighash(raw: u32) -> bool {
    raw <= 3 || (0x81 <= raw <= 0x83)
}

impl Default for SighashType {
    /// The type that commits to all inputs and all outputs.
    fn default() -> (ty: SighashType)
        ensures
            ty.spec_raw() == 1,
            ty.spec_base() == SighashBase::All,
    {
        SighashType { raw_sighash: 1, base: SighashBase::All }
    }
}

impl SighashType {
    /// The flag word.
    pub closed spec fn spec_raw(self) -> u32 {
        self.raw_sighash
    }

    /// The base type.
    pub closed spec fn spec_base(self) -> SighashBase {
        self.base
    }

    /// The base type is the one that the flag word names.
    #[verifier::type_invariant]
    pub closed spec fn wf(self) -> bool {
        base_of(self.raw_sighash) == Some(self.base)
    }

    /// Whether the anyone-can-pay bit, `0x80`, is set.
    pub open spec fn spec_anyone_can_pay(self) -> bool {
        (self.spec_raw() / 128) % 2 == 1
    }

    /// Reads a flag word. Fails with `InvalidParams` where its low four bits name no base type.
    pub fn from_u32(raw: u32) -> (r: SigningResult<SighashType>)
        ensures
            r is Ok <==> base_of(raw) is Some,
            r matches Ok(ty) ==> ty.spec_raw() == raw && Some(ty.spec_base()) == base_of(raw),
            r matches Err(e) ==> e.kind() == SigningErrorType::InvalidParams,
    {
        let low: u32 = raw % 16;
        let base = if low == 0 {
            SighashBase::UseDefault
        } else if low == 1 {
            SighashBase::All
        } else if low == 2 {
            SighashBase::NoOutputs
        } else if low == 3 {
            SighashBase::Single
        } else {
            return Err(SigningError::new(SigningErrorType::InvalidParams, "Invalid sighash type"));
        };
        Ok(SighashType { raw_sighash: raw, base })
    }

    /// The flag word.
    pub fn raw_sighash(&self) -> (raw: u32)
        ensures
            raw == self.spec_raw(),
    {
        self.raw_sighash
    }

    /// The base type.
    pub fn base_type(&self) -> (base: SighashBase)
        ensures
            base == self.spec_base(),
            Some(base) == base_of(self.spec_raw()),
    {
        proof {
            use_type_invariant(self);
        }
        self.base
    }

    /// Whether the signature commits to its own input only.
    pub fn anyone_can_pay(&self) -> (flag: bool)
        ensures
            flag == self.spec_anyone_can_pay(),
    {
        (self.raw_sighash / 128) % 2 == 1
    }

    /// The byte that stands for this type in a taproot signature hash. Fails with
    /// `InvalidParams` where the flag word is none of taproot's seven.
    pub fn serialize_as_taproot(&self) -> (r: SigningResult<u8>)
        ensures
            r is Ok <==> is_taproot_sighash(self.spec_raw()),
            r matches Ok(b) ==> b == self.spec_raw(),
            r matches Err(e) ==> e.kind() == SigningErrorType::InvalidParams,
    {
        let raw: u32 = self.raw_sighash;
        if raw <= 3 || (0x81 <= raw && raw <= 0x83) {
            Ok(raw as u8)
        } else {
            Err(SigningError::new(SigningErrorType::InvalidParams, "Invalid taproot sighash type"))
        }
    }
}

} // verus!
