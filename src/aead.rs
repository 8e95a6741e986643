//! An AES-128-GCM context with a base nonce and a message sequence counter.
use vstd::prelude::*;
use aes_gcm::aead::{Aead, KeyInit, Payload};
use aes_gcm::{Aes128Gcm, Key, Nonce};
use zeroize::Zeroize;
use crate::error::ErrorKind;

verus! {

/// Length in bytes of an AEAD key.
pub const KEY_LEN: usize = 16;

/// Length in bytes of a base nonce and of every per-message nonce.
pub const NONCE_LEN: usize = 12;

/// Length in bytes of the authentication tag appended to each ciphertext.
pub const TAG_LEN: usize = 16;

/// The longest plaintext, and the longest associated data, that AES-GCM accepts.
pub const MAX_INPUT_LEN: u64 = 0x10_0000_0000;

/// The longest ciphertext that AES-GCM accepts.
pub const MAX_CIPHERTEXT_LEN: u64 = 0x10_0000_0010;

/// A context may seal or open only while its counter is below this value, so that the counter
/// never reaches `u64::MAX` after an increment.
pub const SEQ_LIMIT: u64 = 0xffff_ffff_ffff_fffe;

/// What AES-128-GCM encryption returns for a key, nonce, associated data and plaintext.
pub uninterp spec fn aes_gcm_seal_of(
    key: Seq<u8>,
    nonce: Seq<u8>,
    aad: Seq<u8>,
    plaintext: Seq<u8>,
) -> Seq<u8>;

/// What AES-128-GCM decryption returns for a key, nonce, associated data and ciphertext:
/// `None` when the tag does not verify.
pub uninterp spec fn aes_gcm_open_of(
    key: Seq<u8>,
    nonce: Seq<u8>,
    aad: Seq<u8>,
    ciphertext: Seq<u8>,
) -> Option<Seq<u8>>;

/// Byte `i` of `seq` written as a 12-byte big-endian number.
pub open spec fn seq_byte(seq: u64, i: int) -> u8 {
    if i < 4 {
        0u8
    } else {
        ((seq >> ((8 * (11 - i)) as u64)) & 0xffu64) as u8
    }
}

/// The per-message nonce: the base nonce XOR the counter as a 12-byte big-endian number.
pub open spec fn nonce_for(base_nonce: Seq<u8>, seq: u64) -> Seq<u8> {
    Seq::new(NONCE_LEN as nat, |i: int| base_nonce[i] ^ seq_byte(seq, i))
}

/// The mathematical content of an AEAD context.
pub struct ContextModel {
    pub key: Seq<u8>,
    pub base_nonce: Seq<u8>,
    pub seq: u64,
}

impl ContextModel {
    pub open spec fn wf(self) -> bool {
        &&& self.key.len() == KEY_LEN
        &&& self.base_nonce.len() == NONCE_LEN
    }

    /// The nonce of the next message.
    pub open spec fn nonce(self) -> Seq<u8> {
        nonce_for(self.base_nonce, self.seq)
    }

    /// The same context after one message.
    pub open spec fn advanced(self) -> ContextModel {
        ContextModel { seq: (self.seq + 1) as u64, ..self }
    }

    /// What sealing `plaintext` with `aad` returns in this state.
    pub open spec fn seal_outcome(self, aad: Seq<u8>, plaintext: Seq<u8>) -> Result<Seq<u8>, ErrorKind> {
        if self.seq >= SEQ_LIMIT {
            Err(ErrorKind::NonceOverflow)
        } else if plaintext.len() > MAX_INPUT_LEN || aad.len() > MAX_INPUT_LEN {
            Err(ErrorKind::PrimitiveFailure)
        } else {
            Ok(aes_gcm_seal_of(self.key, self.nonce(), aad, plaintext))
        }
    }

    /// What opening `ciphertext` with `aad` returns in this state.
    pub open spec fn open_outcome(self, aad: Seq<u8>, ciphertext: Seq<u8>) -> Result<Seq<u8>, ErrorKind> {
        if self.seq >= SEQ_LIMIT {
            Err(ErrorKind::NonceOverflow)
        } else {
            match aes_gcm_open_of(self.key, self.nonce(), aad, ciphertext) {
                Some(p) => Ok(p),
                None => Err(ErrorKind::AuthenticationFailure),
            }
        }
    }

    /// `ciphertext` is what sealing `plaintext` with `aad` gives in this state, and opening it
    /// there with the same `aad` gives `plaintext` back.
    pub open spec fn sealed(self, aad: Seq<u8>, plaintext: Seq<u8>, ciphertext: Seq<u8>) -> bool {
        &&& self.seal_outcome(aad, plaintext) == Ok::<Seq<u8>, ErrorKind>(ciphertext)
        &&& aes_gcm_open_of(self.key, self.nonce(), aad, ciphertext) == Some(plaintext)
    }
}

/// Relies on aes_gcm's `Aes128Gcm::encrypt`: it fails only when the plaintext or the associated
/// data is longer than 2^36 bytes; otherwise it returns the AES-128-GCM ciphertext with its
/// 16-byte tag appended, which decryption under the same key, nonce and associated data turns
/// back into the plaintext.
#[verifier::external_body]
fn aes_gcm_seal(key: &[u8], nonce: &[u8], aad: &[u8], plaintext: &[u8]) -> (r: Result<Vec<u8>, ()>)
    requires
        key@.len() == KEY_LEN,
        nonce@.len() == NONCE_LEN,
    ensures
        r is Ok <==> (plaintext@.len() <= MAX_INPUT_LEN && aad@.len() <= MAX_INPUT_LEN),
        r is Ok ==> r->Ok_0@ == aes_gcm_seal_of(key@, nonce@, aad@, plaintext@),
        r is Ok ==> r->Ok_0@.len() == plaintext@.len() + TAG_LEN,
        r is Ok ==> aes_gcm_open_of(key@, nonce@, aad@, r->Ok_0@) == Some(plaintext@),
{
    let cipher = Aes128Gcm::new(Key::<Aes128Gcm>::from_slice(key));
    cipher.encrypt(Nonce::from_slice(nonce), Payload { msg: plaintext, aad }).map_err(|_| ())
}

/// Relies on aes_gcm's `Aes128Gcm::decrypt`: it returns the plaintext when the tag verifies,
/// and an error otherwise; a ciphertext shorter than the tag fails, and the plaintext is the
/// ciphertext without its 16-byte tag.
#[verifier::external_body]
fn aes_gcm_open(key: &[u8], nonce: &[u8], aad: &[u8], ciphertext: &[u8]) -> (r: Result<Vec<u8>, ()>)
    requires
        key@.len() == KEY_LEN,
        nonce@.len() == NONCE_LEN,
    ensures
        r is Ok <==> aes_gcm_open_of(key@, nonce@, aad@, ciphertext@) is Some,
        r is Ok ==> Some(r->Ok_0@) == aes_gcm_open_of(key@, nonce@, aad@, ciphertext@),
        r is Ok ==> ciphertext@.len() >= TAG_LEN && r->Ok_0@.len() == ciphertext@.len() - TAG_LEN,
{
    let cipher = Aes128Gcm::new(Key::<Aes128Gcm>::from_slice(key));
    cipher.decrypt(Nonce::from_slice(nonce), Payload { msg: ciphertext, aad }).map_err(|_| ())
}

/// Relies on zeroize's `Zeroize` for `Vec<u8>`: every byte is overwritten with zero by writes
/// that the compiler keeps, then the vector is cleared.
#[verifier::external_body]
pub(crate) fn wipe(bytes: &mut Vec<u8>)
    ensures
        final(bytes)@.len() == 0,
    opens_invariants none
    no_unwind
{
    bytes.zeroize();
}

/// A key, a base nonce and the number of messages already sealed or opened.
pub struct AeadContext {
    key: Vec<u8>,
    base_nonce: Vec<u8>,
    seq: u64,
}

impl View for AeadContext {
    type V = ContextModel;

    closed spec fn view(&self) -> ContextModel {
        ContextModel { key: self.key@, base_nonce: self.base_nonce@, seq: self.seq }
    }
}

impl Drop for AeadContext {
    /// Wipes the key and the base nonce.
    fn drop(&mut self)
        opens_invariants none
        no_unwind
    {
        wipe(&mut self.key);
        wipe(&mut self.base_nonce);
    }
}

impl AeadContext {
    /// A fresh context, with its counter at zero.
    pub fn new(key: Vec<u8>, base_nonce: Vec<u8>) -> (r: AeadContext)
        requires
            key@.len() == KEY_LEN,
            base_nonce@.len() == NONCE_LEN,
        ensures
            r@ == (ContextModel { key: key@, base_nonce: base_nonce@, seq: 0 }),
            r@.wf(),
    {
        AeadContext { key, base_nonce, seq: 0 }
    }

    /// The number of messages this context has sealed or opened.
    pub fn seq(&self) -> (r: u64)
        ensures
            r == self@.seq,
    {
        self.seq
    }

    /// The nonce of the next message.
    pub fn current_nonce(&self) -> (r: Vec<u8>)
        requires
            self@.wf(),
        ensures
            r@ == self@.nonce(),
    {
        let mut out: Vec<u8> = Vec::with_capacity(NONCE_LEN);
        let mut i: usize = 0;
        while i < NONCE_LEN
            invariant
                self@.wf(),
                i <= NONCE_LEN,
                out@.len() == i,
                forall|j: int| 0 <= j < i ==> out@[j] == self.base_nonce@[j] ^ seq_byte(self.seq, j),
            decreases NONCE_LEN - i,
        {
            let b: u8 = if i < 4 {
                0u8
            } else {
                ((self.seq >> ((8 * (11 - i)) as u64)) & 0xffu64) as u8
            };
            out.push(self.base_nonce[i] ^ b);
            i = i + 1;
        }
        assert(out@ =~= self@.nonce());
        out
    }

    /// Seals `plaintext` with `aad` under the current nonce, then advances the counter.
    /// On failure the context is left as it was.
    pub fn seal(&mut self, plaintext: &[u8], aad: &[u8]) -> (r: Result<Vec<u8>, ErrorKind>)
        requires
            old(self)@.wf(),
        ensures
            final(self)@.wf(),
            match r {
                Ok(ct) => {
                    &&& old(self)@.sealed(aad@, plaintext@, ct@)
                    &&& ct@.len() == plaintext@.len() + TAG_LEN
                    &&& final(self)@ == old(self)@.advanced()
                },
                Err(e) => {
                    &&& old(self)@.seal_outcome(aad@, plaintext@) == Err::<Seq<u8>, ErrorKind>(e)
                    &&& final(self)@ == old(self)@
                },
            },
    {
        if self.seq >= SEQ_LIMIT {
            return Err(ErrorKind::NonceOverflow);
        }
        let nonce = self.current_nonce();
        match aes_gcm_seal(self.key.as_slice(), nonce.as_slice(), aad, plaintext) {
            Ok(ct) => {
                self.seq = self.seq + 1;
                Ok(ct)
            },
            Err(()) => Err(ErrorKind::PrimitiveFailure),
        }
    }

    /// Opens `ciphertext` with `aad` under the current nonce; on success advances the counter.
    /// On failure the context is left as it was.
    pub fn open(&mut self, ciphertext: &[u8], aad: &[u8]) -> (r: Result<Vec<u8>, ErrorKind>)
        requires
            old(self)@.wf(),
        ensures
            final(self)@.wf(),
            match r {
                Ok(pt) => {
                    &&& old(self)@.open_outcome(aad@, ciphertext@) == Ok::<Seq<u8>, ErrorKind>(pt@)
                    &&& ciphertext@.len() >= TAG_LEN && pt@.len() == ciphertext@.len() - TAG_LEN
                    &&& final(self)@ == old(self)@.advanced()
                },
                Err(e) => {
                    &&& old(self)@.open_outcome(aad@, ciphertext@) == Err::<Seq<u8>, ErrorKind>(e)
                    &&& final(self)@ == old(self)@
                },
            },
    {
        if self.seq >= SEQ_LIMIT {
            return Err(ErrorKind::NonceOverflow);
        }
        let nonce = self.current_nonce();
        match aes_gcm_open(self.key.as_slice(), nonce.as_slice(), aad, ciphertext) {
            Ok(pt) => {
                self.seq = self.seq + 1;
                Ok(pt)
            },
            Err(()) => Err(ErrorKind::AuthenticationFailure),
        }
    }
}

} // verus!
