//! Typed failures of the cipher and of the key store.

use vstd::prelude::*;

verus! {

/// Why sealing or opening a payload failed.
#[derive(Clone, Copy, Debug, PartialEq, Eq, Structural)]
pub enum CipherError {
    /// The random generator gave no key or no initialization vector, or the
    /// block cipher refused the key or the initialization vector.
    CipherSetup,
    /// The recipient's public key could not wrap the symmetric key.
    KeyWrap,
    /// The private key could not unwrap the symmetric key.
    KeyUnwrap,
    /// The ciphertext did not end in valid padding under the unwrapped key.
    Padding,
}

/// Why key material could not be made, stored or read.
#[derive(Clone, Copy, Debug, PartialEq, Eq, Structural)]
pub enum KeyError {
    /// The generator could not make a key pair.
    KeyGeneration,
    /// The user record or trusted storage did not take its half of the key.
    Persistence,
    /// The user has no stored key.
    NotFound,
    /// The stored form is malformed.
    Decode,
}

/// Why a grant and its payload were not stored.
#[derive(Clone, Copy, Debug, PartialEq, Eq, Structural)]
pub enum StoreError {
    /// The expiration does not lie strictly after the time of creation.
    InvalidExpiration,
    /// The store has no identifiers left to give.
    Full,
}

/// Why a grant was not resolved. A grant that is another recipient's or has
/// expired is reported like one that does not exist.
#[derive(Clone, Copy, Debug, PartialEq, Eq, Structural)]
pub enum ResolveError {
    /// The caller resolves no such grant.
    NotFound,
    /// The supplied password does not match the grant's.
    AccessDenied,
    /// The grant's payload is not in the store.
    PayloadMissing,
}

/// Who is to mend a failure: the caller, whose request was at fault, or the
/// service.
#[derive(Clone, Copy, Debug, PartialEq, Eq, Structural)]
pub enum Fault {
    Caller,
    Service,
}

impl ResolveError {
    /// What the caller is told.
    pub open spec fn spec_message(self) -> Seq<char> {
        match self {
            ResolveError::NotFound => "The requested shared link either does not exist or has expired."@,
            ResolveError::AccessDenied => "The provided password is incorrect."@,
            ResolveError::PayloadMissing => "The requested file either does not exist or has expired."@,
        }
    }

    pub fn message(self) -> (r: &'static str)
        ensures
            r@ == self.spec_message(),
    {
        match self {
            ResolveError::NotFound => "The requested shared link either does not exist or has expired.",
            ResolveError::AccessDenied => "The provided password is incorrect.",
            ResolveError::PayloadMissing => "The requested file either does not exist or has expired.",
        }
    }
}

impl StoreError {
    /// A refused expiration is the caller's to mend, a full store the
    /// service's.
    pub open spec fn spec_fault(self) -> Fault {
        match self {
            StoreError::InvalidExpiration => Fault::Caller,
            StoreError::Full => Fault::Service,
        }
    }

    #[verifier::when_used_as_spec(spec_fault)]
    pub fn fault(self) -> (r: Fault)
        ensures
            r == self.spec_fault(),
    {
        match self {
            StoreError::InvalidExpiration => Fault::Caller,
            StoreError::Full => Fault::Service,
        }
    }
}

impl CipherError {
    /// What the caller is told: nothing that tells a key that did not
    /// unwrap from padding that did not check.
    pub open spec fn spec_caller_message(self) -> Seq<char> {
        match self {
            CipherError::CipherSetup => "encryption failed"@,
            CipherError::KeyWrap => "encryption failed"@,
            CipherError::KeyUnwrap => "decryption failed"@,
            CipherError::Padding => "decryption failed"@,
        }
    }

    pub fn caller_message(self) -> (r: &'static str)
        ensures
            r@ == self.spec_caller_message(),
    {
        match self {
            CipherError::CipherSetup => "encryption failed",
            CipherError::KeyWrap => "encryption failed",
            CipherError::KeyUnwrap => "decryption failed",
            CipherError::Padding => "decryption failed",
        }
    }

    /// What the log is told: each failure under its own name.
    pub open spec fn spec_log_message(self) -> Seq<char> {
        match self {
            CipherError::CipherSetup => "cipher setup failed"@,
            CipherError::KeyWrap => "symmetric key could not be wrapped"@,
            CipherError::KeyUnwrap => "symmetric key could not be unwrapped"@,
            CipherError::Padding => "padding of the decrypted payload is invalid"@,
        }
    }

    pub fn log_message(self) -> (r: &'static str)
        ensures
            r@ == self.spec_log_message(),
    {
        match self {
            CipherError::CipherSetup => "cipher setup failed",
            CipherError::KeyWrap => "symmetric key could not be wrapped",
            CipherError::KeyUnwrap => "symmetric key could not be unwrapped",
            CipherError::Padding => "padding of the decrypted payload is invalid",
        }
    }

    /// Whether the failure must reach the caller as the one undifferentiated
    /// "decryption failed" outcome.
    pub open spec fn spec_is_decryption_failure(self) -> bool {
        self == CipherError::KeyUnwrap || self == CipherError::Padding
    }

    #[verifier::when_used_as_spec(spec_is_decryption_failure)]
    pub fn is_decryption_failure(self) -> (r: bool)
        ensures
            r == self.spec_is_decryption_failure(),
    {
        match self {
            CipherError::KeyUnwrap => true,
            CipherError::Padding => true,
            _ => false,
        }
    }
}

} // verus!
