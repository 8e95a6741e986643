use vstd::prelude::*;

verus! {

/// What went wrong.
#[derive(Clone, Copy, Debug, PartialEq, Eq, Structural)]
pub enum ErrorKind {
    /// A serialized point is malformed, not on the curve, or the identity.
    InvalidPublicKey,
    /// An AEAD tag did not verify: the session must be abandoned.
    AuthenticationFailure,
    /// The AEAD sequence counter ran out.
    NonceOverflow,
    /// The random number generator could not be used.
    RandomnessFailure,
    /// The underlying AEAD, KDF or KEM primitive reported an error.
    PrimitiveFailure,
}

/// The operation during which an error occurred.
#[derive(Clone, Copy, Debug, PartialEq, Eq, Structural)]
pub enum Operation {
    CreateRecipient,
    CreateEncryptor,
    EncryptRequest,
    DecryptResponse,
    CreateDecryptor,
    DecryptRequest,
    EncryptResponse,
}

/// An error together with the operation that failed.
#[derive(Clone, Copy, Debug, PartialEq, Eq, Structural)]
pub struct CryptoError {
    pub kind: ErrorKind,
    pub operation: Operation,
}

impl Operation {
    /// A short human-readable description of the failed operation.
    pub fn context(&self) -> (r: &'static str)
        ensures
            *self == Operation::CreateRecipient ==> r@ == "couldn't generate recipient key pair"@,
            *self == Operation::CreateEncryptor ==> r@ == "couldn't create sender request encryptor"@,
            *self == Operation::EncryptRequest ==> r@ == "couldn't encrypt request"@,
            *self == Operation::DecryptResponse ==> r@ == "couldn't decrypt response"@,
            *self == Operation::CreateDecryptor ==> r@ == "couldn't create recipient request decryptor"@,
            *self == Operation::DecryptRequest ==> r@ == "couldn't decrypt request"@,
            *self == Operation::EncryptResponse ==> r@ == "couldn't encrypt response"@,
    {
        match self {
            Operation::CreateRecipient => "couldn't generate recipient key pair",
            Operation::CreateEncryptor => "couldn't create sender request encryptor",
            Operation::EncryptRequest => "couldn't encrypt request",
            Operation::DecryptResponse => "couldn't decrypt response",
            Operation::CreateDecryptor => "couldn't create recipient request decryptor",
            Operation::DecryptRequest => "couldn't decrypt request",
            Operation::EncryptResponse => "couldn't encrypt response",
        }
    }
}

impl CryptoError {
    pub fn new(kind: ErrorKind, operation: Operation) -> (r: CryptoError)
        ensures
            r.kind == kind,
            r.operation == operation,
    {
        CryptoError { kind, operation }
    }
}

} // verus!
