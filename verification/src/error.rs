//! Typed errors of transaction construction and signing.

use vstd::prelude::*;

verus! {

/// What went wrong, as a caller can act on it.
#[derive(Clone, Copy, Debug, PartialEq, Eq, Structural)]
pub enum SigningErrorType {
    /// Malformed or out-of-range caller input.
    InvalidParams,
    /// Bytes that are no valid public key.
    InvalidPublicKey,
    /// Bytes that are no valid signature.
    InvalidSignature,
    /// A previous output that is structurally wrong or cannot be spent.
    InvalidUtxo,
    /// A negative amount of a previous output.
    InvalidUtxoAmount,
    /// An address that names no locking script.
    InvalidAddress,
    /// A script shape that is recognised but not handled.
    NotSupported,
    /// A broken internal invariant.
    Internal,
}

/// Errors of key handling.
#[derive(Clone, Copy, Debug, PartialEq, Eq, Structural)]
pub enum KeyPairError {
    /// Bytes that encode no point on the curve.
    InvalidPublicKey,
    /// Bytes that are not the length of a signature.
    InvalidSignature,
}

/// An error kind with the chain of contexts it passed through, innermost
/// first. Every error carries at least one context.
#[derive(Debug)]
pub struct SigningError {
    kind: SigningErrorType,
    context: Vec<&'static str>,
}

pub type SigningResult<T> = Result<T, SigningError>;

/// The error kind that a key error is reported as.
pub open spec fn key_error_kind(e: KeyPairError) -> SigningErrorType {
    match e {
        KeyPairError::InvalidPublicKey => SigningErrorType::InvalidPublicKey,
        KeyPairError::InvalidSignature => SigningErrorType::InvalidSignature,
    }
}

impl SigningError {
    /// The kind of the error.
    pub closed spec fn spec_kind(&self) -> SigningErrorType {
        self.kind
    }

    /// The contexts that the error passed through, innermost first.
    pub closed spec fn spec_context(&self) -> Seq<&'static str> {
        self.context@
    }

    /// There is at least one context.
    #[verifier::type_invariant]
    pub closed spec fn wf(&self) -> bool {
        self.context@.len() >= 1
    }

    /// The kind of the error.
    #[verifier::when_used_as_spec(spec_kind)]
    pub fn kind(&self) -> (kind: SigningErrorType)
        ensures
            kind == self.spec_kind(),
    {
        self.kind
    }

    /// The contexts that the error passed through, innermost first: at least one.
    pub fn context_chain(&self) -> (chain: &Vec<&'static str>)
        ensures
            chain@ == self.spec_context(),
            chain@.len() >= 1,
    {
        proof {
            use_type_invariant(self);
        }
        &self.context
    }

    /// An error of the given kind with one context message.
    pub fn new(kind: SigningErrorType, message: &'static str) -> (e: SigningError)
        ensures
            e.kind() == kind,
            e.spec_context() == seq![message],
    {
        let mut context: Vec<&'static str> = Vec::new();
        context.push(message);
        SigningError { kind, context }
    }

    /// The same error with one more context message at the outer end.
    pub fn context(self, message: &'static str) -> (e: SigningError)
        ensures
            e.kind() == self.kind(),
            e.spec_context() == self.spec_context().push(message),
    {
        let kind = self.kind;
        let mut context = self.context;
        context.push(message);
        SigningError { kind, context }
    }

    /// A key error as a signing error, with one context message.
    pub fn from_key_error(err: KeyPairError, message: &'static str) -> (e: SigningError)
        ensures
            e.kind() == key_error_kind(err),
            e.spec_context() == seq![message],
    {
        let kind = match err {
            KeyPairError::InvalidPublicKey => SigningErrorType::InvalidPublicKey,
            KeyPairError::InvalidSignature => SigningErrorType::InvalidSignature,
        };
        SigningError::new(kind, message)
    }
}

} // verus!
