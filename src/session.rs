//! The session objects: providers that start sessions, and the four one-shot encryptors and
//! decryptors that hand the session on to each other.
use vstd::prelude::*;
use crate::aead::{AeadContext, TAG_LEN};
use crate::error::{CryptoError, ErrorKind, Operation};
use crate::hpke::{
    agreed_session, p256_private_key_accepted, p256_public_key_accepted, p256_public_key_of,
    recipient_session, session_from_secret, setup_base_recipient, setup_base_sender, KeyPair,
    SessionModel, PUBLIC_KEY_LEN, SESSION_SECRET_LEN,
};

verus! {

/// Some secret of the session-secret length expands to `s`.
pub open spec fn fresh_session(s: SessionModel) -> bool {
    exists|secret: Seq<u8>| #![auto] secret.len() == SESSION_SECRET_LEN && s == session_from_secret(secret)
}

/// The HPKE sender: holds the recipient's serialized public key and starts sessions with it.
pub struct SenderCryptoProvider {
    serialized_recipient_public_key: Vec<u8>,
}

impl View for SenderCryptoProvider {
    type V = Seq<u8>;

    closed spec fn view(&self) -> Seq<u8> {
        self.serialized_recipient_public_key@
    }
}

impl SenderCryptoProvider {
    /// A sender for the recipient whose SEC1-encoded P-256 public key is given.
    pub fn new(serialized_recipient_public_key: &[u8]) -> (r: SenderCryptoProvider)
        ensures
            r@ == serialized_recipient_public_key@,
    {
        SenderCryptoProvider { serialized_recipient_public_key: vstd::slice::slice_to_vec(serialized_recipient_public_key) }
    }

    /// Starts a session with a fresh ephemeral key pair. Returns the serialized encapsulated
    /// key, to be sent to the recipient, and the encryptor of the first request.
    pub fn create_encryptor(&self) -> (r: Result<(Vec<u8>, SenderRequestEncryptor), CryptoError>)
        ensures
            !p256_public_key_accepted(self@) ==> r is Err && r->Err_0 == (CryptoError { kind: ErrorKind::InvalidPublicKey, operation: Operation::CreateEncryptor }),
            p256_public_key_accepted(self@) ==> r is Ok || r->Err_0 == (CryptoError { kind: ErrorKind::RandomnessFailure, operation: Operation::CreateEncryptor }),
            r matches Ok((enc, e)) ==> {
                &&& enc@.len() == PUBLIC_KEY_LEN && enc@[0] == 4u8
                &&& p256_public_key_accepted(enc@)
                &&& e.wf()
                &&& e@.request.seq == 0 && e@.response.seq == 0
                &&& agreed_session(self@, enc@, e@)
                &&& fresh_session(e@)
            },
    {
        match setup_base_sender(self.serialized_recipient_public_key.as_slice()) {
            Ok((enc, request, response)) => Ok((enc, SenderRequestEncryptor { request, response })),
            Err(kind) => Err(CryptoError::new(kind, Operation::CreateEncryptor)),
        }
    }
}

/// Encrypts the next request of a session on the sender's side.
pub struct SenderRequestEncryptor {
    request: AeadContext,
    response: AeadContext,
}

impl View for SenderRequestEncryptor {
    type V = SessionModel;

    closed spec fn view(&self) -> SessionModel {
        SessionModel { request: self.request@, response: self.response@ }
    }
}

impl SenderRequestEncryptor {
    pub closed spec fn wf(&self) -> bool {
        self@.wf()
    }

    /// Seals `plaintext` with `associated_data` under the request context. Returns the request
    /// ciphertext and the decryptor of the matching response.
    pub fn encrypt(self, plaintext: &[u8], associated_data: &[u8]) -> (r: Result<(Vec<u8>, SenderResponseDecryptor), CryptoError>)
        requires
            self.wf(),
        ensures
            r is Ok <==> self@.request.seal_outcome(associated_data@, plaintext@) is Ok,
            r matches Ok((ct, d)) ==> {
                &&& self@.request.sealed(associated_data@, plaintext@, ct@)
                &&& ct@.len() == plaintext@.len() + TAG_LEN
                &&& d.wf()
                &&& d@ == self@.after_request()
            },
            r matches Err(e) ==> {
                &&& self@.request.seal_outcome(associated_data@, plaintext@) == Err::<Seq<u8>, ErrorKind>(e.kind)
                &&& e.operation == Operation::EncryptRequest
            },
    {
        let mut request = self.request;
        match request.seal(plaintext, associated_data) {
            Ok(ct) => Ok((ct, SenderResponseDecryptor { request, response: self.response })),
            Err(kind) => Err(CryptoError::new(kind, Operation::EncryptRequest)),
        }
    }
}

/// Decrypts the response to the last request on the sender's side.
pub struct SenderResponseDecryptor {
    request: AeadContext,
    response: AeadContext,
}

impl View for SenderResponseDecryptor {
    type V = SessionModel;

    closed spec fn view(&self) -> SessionModel {
        SessionModel { request: self.request@, response: self.response@ }
    }
}

impl SenderResponseDecryptor {
    pub closed spec fn wf(&self) -> bool {
        self@.wf()
    }

    /// Opens `ciphertext` with `associated_data` under the response context. Returns the
    /// response plaintext and the encryptor of the next request.
    pub fn decrypt(self, ciphertext: &[u8], associated_data: &[u8]) -> (r: Result<(Vec<u8>, SenderRequestEncryptor), CryptoError>)
        requires
            self.wf(),
        ensures
            r is Ok <==> self@.response.open_outcome(associated_data@, ciphertext@) is Ok,
            r matches Ok((pt, e)) ==> {
                &&& self@.response.open_outcome(associated_data@, ciphertext@) == Ok::<Seq<u8>, ErrorKind>(pt@)
                &&& ciphertext@.len() >= TAG_LEN && pt@.len() == ciphertext@.len() - TAG_LEN
                &&& e.wf()
                &&& e@ == self@.after_response()
            },
            r matches Err(e) ==> {
                &&& self@.response.open_outcome(associated_data@, ciphertext@) == Err::<Seq<u8>, ErrorKind>(e.kind)
                &&& e.operation == Operation::DecryptResponse
            },
    {
        let mut response = self.response;
        match response.open(ciphertext, associated_data) {
            Ok(pt) => Ok((pt, SenderRequestEncryptor { request: self.request, response })),
            Err(kind) => Err(CryptoError::new(kind, Operation::DecryptResponse)),
        }
    }
}

/// The HPKE recipient: holds a key pair and accepts sessions started by senders.
pub struct RecipientCryptoProvider {
    key_pair: KeyPair,
}

impl RecipientCryptoProvider {
    /// The recipient's private key bytes.
    pub closed spec fn private_key(&self) -> Seq<u8> {
        self.key_pair.private_key_bytes()
    }

    /// The recipient's public key bytes.
    pub closed spec fn public_key(&self) -> Seq<u8> {
        self.key_pair.public_key_bytes()
    }

    /// The private key is one that hpke accepts, and the public key is its 65-byte SEC1
    /// uncompressed point.
    pub open spec fn wf(&self) -> bool {
        &&& p256_private_key_accepted(self.private_key())
        &&& self.public_key() == p256_public_key_of(self.private_key())
        &&& p256_public_key_accepted(self.public_key())
        &&& self.public_key().len() == PUBLIC_KEY_LEN
        &&& self.public_key()[0] == 4u8
    }

    /// A recipient with a newly generated key pair. Fails with `RandomnessFailure` when the
    /// operating system's random generator does.
    pub fn new() -> (r: Result<RecipientCryptoProvider, CryptoError>)
        ensures
            r matches Ok(p) ==> p.wf(),
            r matches Err(e) ==> e == (CryptoError { kind: ErrorKind::RandomnessFailure, operation: Operation::CreateRecipient }),
    {
        match KeyPair::generate() {
            Ok(key_pair) => Ok(RecipientCryptoProvider { key_pair }),
            Err(kind) => Err(CryptoError::new(kind, Operation::CreateRecipient)),
        }
    }

    /// The recipient's public key, as a SEC1 uncompressed P-256 point.
    pub fn get_serialized_public_key(&self) -> (r: Vec<u8>)
        requires
            self.wf(),
        ensures
            r@ == self.public_key(),
            r@.len() == PUBLIC_KEY_LEN,
            r@[0] == 4u8,
            p256_public_key_accepted(r@),
            r@ == p256_public_key_of(self.private_key()),
    {
        self.key_pair.get_serialized_public_key()
    }

    /// Accepts a session from the sender's serialized encapsulated key. Returns the decryptor of
    /// the first request.
    pub fn create_decryptor(&self, serialized_encapsulated_public_key: &[u8]) -> (r: Result<RecipientRequestDecryptor, CryptoError>)
        requires
            self.wf(),
        ensures
            p256_public_key_accepted(serialized_encapsulated_public_key@) <==> r is Ok,
            r matches Ok(d) ==> d.wf() && d@ == recipient_session(self.private_key(), serialized_encapsulated_public_key@),
            r matches Err(e) ==> e == (CryptoError { kind: ErrorKind::InvalidPublicKey, operation: Operation::CreateDecryptor }),
    {
        match setup_base_recipient(serialized_encapsulated_public_key, &self.key_pair) {
            Ok((request, response)) => Ok(RecipientRequestDecryptor { request, response }),
            Err(kind) => Err(CryptoError::new(kind, Operation::CreateDecryptor)),
        }
    }
}

/// Decrypts the next request of a session on the recipient's side.
pub struct RecipientRequestDecryptor {
    request: AeadContext,
    response: AeadContext,
}

impl View for RecipientRequestDecryptor {
    type V = SessionModel;

    closed spec fn view(&self) -> SessionModel {
        SessionModel { request: self.request@, response: self.response@ }
    }
}

impl RecipientRequestDecryptor {
    pub closed spec fn wf(&self) -> bool {
        self@.wf()
    }

    /// Opens `ciphertext` with `associated_data` under the request context. Returns the request
    /// plaintext and the encryptor of the matching response.
    pub fn decrypt(self, ciphertext: &[u8], associated_data: &[u8]) -> (r: Result<(Vec<u8>, RecipientResponseEncryptor), CryptoError>)
        requires
            self.wf(),
        ensures
            r is Ok <==> self@.request.open_outcome(associated_data@, ciphertext@) is Ok,
            r matches Ok((pt, e)) ==> {
                &&& self@.request.open_outcome(associated_data@, ciphertext@) == Ok::<Seq<u8>, ErrorKind>(pt@)
                &&& ciphertext@.len() >= TAG_LEN && pt@.len() == ciphertext@.len() - TAG_LEN
                &&& e.wf()
                &&& e@ == self@.after_request()
            },
            r matches Err(e) ==> {
                &&& self@.request.open_outcome(associated_data@, ciphertext@) == Err::<Seq<u8>, ErrorKind>(e.kind)
                &&& e.operation == Operation::DecryptRequest
            },
    {
        let mut request = self.request;
        match request.open(ciphertext, associated_data) {
            Ok(pt) => Ok((pt, RecipientResponseEncryptor { request, response: self.response })),
            Err(kind) => Err(CryptoError::new(kind, Operation::DecryptRequest)),
        }
    }
}

/// Encrypts the response to the last request on the recipient's side.
pub struct RecipientResponseEncryptor {
    request: AeadContext,
    response: AeadContext,
}

impl View for RecipientResponseEncryptor {
    type V = SessionModel;

    closed spec fn view(&self) -> SessionModel {
        SessionModel { request: self.request@, response: self.response@ }
    }
}

impl RecipientResponseEncryptor {
    pub closed spec fn wf(&self) -> bool {
        self@.wf()
    }

    /// Seals `plaintext` with `associated_data` under the response context. Returns the
    /// response ciphertext and the decryptor of the next request.
    pub fn encrypt(self, plaintext: &[u8], associated_data: &[u8]) -> (r: Result<(Vec<u8>, RecipientRequestDecryptor), CryptoError>)
        requires
            self.wf(),
        ensures
            r is Ok <==> self@.response.seal_outcome(associated_data@, plaintext@) is Ok,
            r matches Ok((ct, d)) ==> {
                &&& self@.response.sealed(associated_data@, plaintext@, ct@)
                &&& ct@.len() == plaintext@.len() + TAG_LEN
                &&& d.wf()
                &&& d@ == self@.after_response()
            },
            r matches Err(e) ==> {
                &&& self@.response.seal_outcome(associated_data@, plaintext@) == Err::<Seq<u8>, ErrorKind>(e.kind)
                &&& e.operation == Operation::EncryptResponse
            },
    {
        let mut response = self.response;
        match response.seal(plaintext, associated_data) {
            Ok(ct) => Ok((ct, RecipientRequestDecryptor { request: self.request, response })),
            Err(kind) => Err(CryptoError::new(kind, Operation::EncryptResponse)),
        }
    }
}

} // verus!
