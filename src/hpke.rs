//! HPKE base-mode setup and the key schedule that turns one setup into two AEAD contexts.
use vstd::prelude::*;
use vstd::string::StringSliceAdditionalSpecFns;
use vstd::arithmetic::power2::{lemma2_to64, lemma_pow2_adds, pow2};
use hpke::aead::AesGcm128;
use hpke::kdf::HkdfSha256;
use hpke::kem::DhP256HkdfSha256;
use hpke::rand_core::{OsRng, RngCore, SeedableRng};
use rand_chacha::ChaCha20Rng;
use hpke::{Deserializable, Kem as HpkeKem, OpModeR, OpModeS, Serializable};
use hkdf::Hkdf;
use sha2::Sha256;
use crate::aead::{wipe, AeadContext, ContextModel, KEY_LEN, NONCE_LEN};
use crate::error::ErrorKind;

verus! {

/// Length in bytes of a serialized P-256 private key.
pub const PRIVATE_KEY_LEN: usize = 32;

/// Length in bytes of a SEC1 uncompressed P-256 point.
pub const PUBLIC_KEY_LEN: usize = 65;

/// Length in bytes of the secret exported from an HPKE context.
pub const SESSION_SECRET_LEN: usize = 32;

/// The unsigned big-endian number that a byte string spells.
pub open spec fn be_value(bytes: Seq<u8>) -> nat
    decreases bytes.len(),
{
    if bytes.len() == 0 {
        0
    } else {
        be_value(bytes.drop_last()) * 256 + bytes.last() as nat
    }
}

/// The prime p of the P-256 base field.
pub open spec fn p256_prime() -> int {
    0xffffffff000000010000000000000000u128 as int * pow2(128) as int + 0x00000000ffffffffffffffffffffffffu128 as int
}

/// The coefficient b of the P-256 curve y^2 = x^3 - 3x + b.
pub open spec fn p256_b() -> int {
    0x5ac635d8aa3a93e7b3ebbd55769886bcu128 as int * pow2(128) as int + 0x651d06b0cc53b0f63bce3c3e27d2604bu128 as int
}

/// Whether `bytes` is a SEC1 uncompressed P-256 point, `0x04 || X || Y`, with both coordinates
/// below p and on the curve: exactly the inputs that hpke's P-256 `PublicKey::from_bytes`
/// accepts (an uncompressed encoding is never the identity).
pub open spec fn p256_public_key_accepted(bytes: Seq<u8>) -> bool {
    let x = be_value(bytes.subrange(1, 33)) as int;
    let y = be_value(bytes.subrange(33, 65)) as int;
    &&& bytes.len() == PUBLIC_KEY_LEN
    &&& bytes[0] == 4u8
    &&& x < p256_prime()
    &&& y < p256_prime()
    &&& (y * y) % p256_prime() == (x * x * x - 3 * x + p256_b()) % p256_prime()
}

/// Whether hpke's P-256 `PrivateKey::from_bytes` accepts these bytes as a private key.
pub uninterp spec fn p256_private_key_accepted(bytes: Seq<u8>) -> bool;

/// The serialized public key of a serialized P-256 private key, as hpke's `Kem::sk_to_pk`
/// computes it.
pub uninterp spec fn p256_public_key_of(private_key: Seq<u8>) -> Seq<u8>;

/// Length in bytes of the random keying material for a key pair, and of a random seed.
pub const SEED_LEN: usize = 32;

/// The session secret that the recipient's HPKE context exports, for a private key, an
/// encapsulated key, an info string, an exporter label and a length.
pub uninterp spec fn hpke_recipient_export_of(
    private_key: Seq<u8>,
    encapsulated_key: Seq<u8>,
    info: Seq<u8>,
    label: Seq<u8>,
    len: nat,
) -> Seq<u8>;

/// HKDF-SHA-256 Expand of a pseudorandom key with a label, to the given length.
pub uninterp spec fn hkdf_sha256_expand_of(prk: Seq<u8>, label: Seq<u8>, len: nat) -> Seq<u8>;

/// The info string bound into every HPKE setup.
pub open spec fn hpke_info() -> Seq<u8> {
    "Oak Hybrid Public Key Encryption v1".spec_bytes()
}

/// The exporter label under which both sides export the session secret.
pub open spec fn session_secret_label() -> Seq<u8> {
    "session_secret".spec_bytes()
}

pub open spec fn request_key_label() -> Seq<u8> {
    "request_key".spec_bytes()
}

pub open spec fn request_base_nonce_label() -> Seq<u8> {
    "request_base_nonce".spec_bytes()
}

pub open spec fn response_key_label() -> Seq<u8> {
    "response_key".spec_bytes()
}

pub open spec fn response_base_nonce_label() -> Seq<u8> {
    "response_base_nonce".spec_bytes()
}

/// The request and response contexts of a session, as mathematical values.
pub struct SessionModel {
    pub request: ContextModel,
    pub response: ContextModel,
}

impl SessionModel {
    pub open spec fn wf(self) -> bool {
        self.request.wf() && self.response.wf()
    }

    /// The session after one request was sealed or opened.
    pub open spec fn after_request(self) -> SessionModel {
        SessionModel { request: self.request.advanced(), response: self.response }
    }

    /// The session after one response was sealed or opened.
    pub open spec fn after_response(self) -> SessionModel {
        SessionModel { request: self.request, response: self.response.advanced() }
    }
}

/// The fresh session whose four keys and base nonces are expanded from `secret`.
pub open spec fn session_from_secret(secret: Seq<u8>) -> SessionModel {
    SessionModel {
        request: ContextModel {
            key: hkdf_sha256_expand_of(secret, request_key_label(), KEY_LEN as nat),
            base_nonce: hkdf_sha256_expand_of(secret, request_base_nonce_label(), NONCE_LEN as nat),
            seq: 0,
        },
        response: ContextModel {
            key: hkdf_sha256_expand_of(secret, response_key_label(), KEY_LEN as nat),
            base_nonce: hkdf_sha256_expand_of(secret, response_base_nonce_label(), NONCE_LEN as nat),
            seq: 0,
        },
    }
}

/// Relies on rand_core's `OsRng::try_fill_bytes`: the operating system's random generator,
/// which reports a failure instead of panicking.
#[verifier::external_body]
fn random_bytes(len: usize) -> (r: Result<Vec<u8>, ()>)
    ensures
        r is Ok ==> r->Ok_0@.len() == len,
{
    let mut buf = vec![0u8; len];
    OsRng.try_fill_bytes(&mut buf).map(|_| buf).map_err(|_| ())
}

proof fn lemma_be_value_zeros(n: nat)
    ensures
        be_value(Seq::new(n, |i: int| 0u8)) == 0,
    decreases n,
{
    if n > 0 {
        lemma_be_value_zeros((n - 1) as nat);
        assert(Seq::new(n, |i: int| 0u8).drop_last() =~= Seq::new((n - 1) as nat, |i: int| 0u8));
    }
}

/// A 65-byte string whose coordinate bytes are all zero, such as `0x04` followed by 64 zero
/// bytes, is not an accepted P-256 public key: (0, 0) is not on the curve.
pub proof fn lemma_zero_coordinates_rejected(bytes: Seq<u8>)
    requires
        bytes.len() == PUBLIC_KEY_LEN,
        forall|i: int| 1 <= i < 65 ==> bytes[i] == 0u8,
    ensures
        !p256_public_key_accepted(bytes),
{
    assert(bytes.subrange(1, 33) =~= Seq::new(32, |i: int| 0u8));
    assert(bytes.subrange(33, 65) =~= Seq::new(32, |i: int| 0u8));
    lemma_be_value_zeros(32);
    lemma2_to64();
    lemma_pow2_adds(64, 64);
    let m = pow2(128) as int;
    assert(m == 0x100000000000000000000000000000000int);
    assert(0 < p256_b() < p256_prime());
    assert(p256_b() % p256_prime() == p256_b()) by (nonlinear_arith)
        requires 0 < p256_b() < p256_prime();
    let x = be_value(bytes.subrange(1, 33)) as int;
    let y = be_value(bytes.subrange(33, 65)) as int;
    assert(x == 0 && y == 0);
    assert(y * y == 0);
    assert(0int % p256_prime() == 0) by (nonlinear_arith)
        requires 0 < p256_prime();
    assert(x * x * x - 3 * x + p256_b() == p256_b());
}

/// Relies on hpke's `Kem::derive_keypair` for DHKEM(P-256): a private key that
/// `PrivateKey::from_bytes` accepts, and its 65-byte SEC1 uncompressed public key, a point that
/// `PublicKey::from_bytes` accepts.
#[verifier::external_body]
fn derive_p256_key_pair(ikm: &[u8]) -> (r: (Vec<u8>, Vec<u8>))
    ensures
        r.0@.len() == PRIVATE_KEY_LEN,
        p256_private_key_accepted(r.0@),
        r.1@ == p256_public_key_of(r.0@),
        r.1@.len() == PUBLIC_KEY_LEN,
        r.1@[0] == 4u8,
        p256_public_key_accepted(r.1@),
{
    let (sk, pk) = DhP256HkdfSha256::derive_keypair(ikm);
    (sk.to_bytes().to_vec(), pk.to_bytes().to_vec())
}

/// Relies on hpke's P-256 `PublicKey::from_bytes`: it checks the length, then p256's
/// `PublicKey::from_sec1_bytes` checks the tag, that both coordinates are below p, and the curve
/// equation.
#[verifier::external_body]
fn p256_public_key_check(bytes: &[u8]) -> (r: bool)
    ensures
        r == p256_public_key_accepted(bytes@),
{
    <DhP256HkdfSha256 as HpkeKem>::PublicKey::from_bytes(bytes).is_ok()
}

/// Relies on hpke's `setup_sender` in base mode, with the ephemeral key drawn from a ChaCha20
/// generator seeded with `seed`: it fails only when `PublicKey::from_bytes` rejects the recipient
/// key (its Diffie-Hellman step cannot fail on accepted keys). The encapsulated key is a
/// serialized public key, and the exported secret is the one that `setup_receiver` exports with
/// any private key of that recipient key.
#[verifier::external_body]
fn hpke_sender_export(recipient_public_key: &[u8], seed: &[u8], info: &[u8], label: &[u8], secret_len: usize) -> (r: Result<(Vec<u8>, Vec<u8>), ErrorKind>)
    requires
        seed@.len() == SEED_LEN,
        secret_len <= 8160,
    ensures
        !p256_public_key_accepted(recipient_public_key@) ==> r is Err && r->Err_0 == ErrorKind::InvalidPublicKey,
        p256_public_key_accepted(recipient_public_key@) ==> r is Ok,
        r is Ok ==> r->Ok_0.0@.len() == PUBLIC_KEY_LEN && r->Ok_0.0@[0] == 4u8,
        r is Ok ==> p256_public_key_accepted(r->Ok_0.0@) && r->Ok_0.1@.len() == secret_len,
        r is Ok ==> forall|sk: Seq<u8>| #![trigger p256_public_key_of(sk)]
            p256_private_key_accepted(sk) && p256_public_key_of(sk) == recipient_public_key@
                ==> r->Ok_0.1@ == hpke_recipient_export_of(sk, r->Ok_0.0@, info@, label@, secret_len as nat),
{
    let pk = <DhP256HkdfSha256 as HpkeKem>::PublicKey::from_bytes(recipient_public_key).map_err(|_| ErrorKind::InvalidPublicKey)?;
    let mut rng = ChaCha20Rng::from_seed(seed.try_into().unwrap());
    let (enc, ctx) = hpke::setup_sender::<AesGcm128, HkdfSha256, DhP256HkdfSha256, _>(&OpModeS::Base, &pk, info, &mut rng).map_err(|_| ErrorKind::PrimitiveFailure)?;
    let mut secret = vec![0u8; secret_len];
    ctx.export(label, &mut secret).map_err(|_| ErrorKind::PrimitiveFailure)?;
    Ok((enc.to_bytes().to_vec(), secret))
}

/// Relies on hpke's `setup_receiver` in base mode: it fails with `InvalidPublicKey` when
/// `PublicKey::from_bytes` rejects the encapsulated key, and only then on an accepted private key
/// (decapsulation cannot fail on accepted keys); the exported secret depends on the arguments
/// alone.
#[verifier::external_body]
fn hpke_recipient_export(private_key: &[u8], encapsulated_key: &[u8], info: &[u8], label: &[u8], secret_len: usize) -> (r: Result<Vec<u8>, ErrorKind>)
    requires
        secret_len <= 8160,
    ensures
        !p256_public_key_accepted(encapsulated_key@) ==> r is Err && r->Err_0 == ErrorKind::InvalidPublicKey,
        p256_public_key_accepted(encapsulated_key@) && p256_private_key_accepted(private_key@) ==> r is Ok,
        r is Ok ==> r->Ok_0@ == hpke_recipient_export_of(private_key@, encapsulated_key@, info@, label@, secret_len as nat),
        r is Ok ==> r->Ok_0@.len() == secret_len,
        r is Err ==> r->Err_0 == ErrorKind::InvalidPublicKey || r->Err_0 == ErrorKind::PrimitiveFailure,
{
    let enc = <DhP256HkdfSha256 as HpkeKem>::EncappedKey::from_bytes(encapsulated_key).map_err(|_| ErrorKind::InvalidPublicKey)?;
    let sk = <DhP256HkdfSha256 as HpkeKem>::PrivateKey::from_bytes(private_key).map_err(|_| ErrorKind::PrimitiveFailure)?;
    let ctx = hpke::setup_receiver::<AesGcm128, HkdfSha256, DhP256HkdfSha256>(&OpModeR::Base, &sk, &enc, info).map_err(|_| ErrorKind::PrimitiveFailure)?;
    let mut secret = vec![0u8; secret_len];
    ctx.export(label, &mut secret).map_err(|_| ErrorKind::PrimitiveFailure)?;
    Ok(secret)
}

/// Relies on hkdf's `Hkdf::<Sha256>::from_prk` and `expand`: a 32-byte key is accepted, and an
/// output of at most 255 * 32 bytes is produced.
#[verifier::external_body]
fn hkdf_expand(prk: &[u8], label: &[u8], len: usize) -> (r: Vec<u8>)
    requires
        prk@.len() == 32,
        len <= 8160,
    ensures
        r@ == hkdf_sha256_expand_of(prk@, label@, len as nat),
        r@.len() == len,
{
    let mut okm = vec![0u8; len];
    Hkdf::<Sha256>::from_prk(prk).unwrap().expand(label, &mut okm).unwrap();
    okm
}

/// The session that the recipient holding `private_key` derives from an encapsulated key.
pub open spec fn recipient_session(private_key: Seq<u8>, encapsulated_key: Seq<u8>) -> SessionModel {
    session_from_secret(
        hpke_recipient_export_of(private_key, encapsulated_key, hpke_info(), session_secret_label(), SESSION_SECRET_LEN as nat),
    )
}

/// `s` is the session that every recipient whose key pair has the public key
/// `recipient_public_key` derives from `encapsulated_key`.
pub open spec fn agreed_session(recipient_public_key: Seq<u8>, encapsulated_key: Seq<u8>, s: SessionModel) -> bool {
    forall|sk: Seq<u8>| #![trigger p256_public_key_of(sk)]
        p256_private_key_accepted(sk) && p256_public_key_of(sk) == recipient_public_key
            ==> s == recipient_session(sk, encapsulated_key)
}

/// A recipient's P-256 key pair, as bytes: the private scalar and the SEC1 uncompressed point.
pub struct KeyPair {
    private_key: Vec<u8>,
    public_key: Vec<u8>,
}

impl Drop for KeyPair {
    /// Wipes the private key.
    fn drop(&mut self)
        opens_invariants none
        no_unwind
    {
        wipe(&mut self.private_key);
    }
}

impl KeyPair {
    pub closed spec fn private_key_bytes(&self) -> Seq<u8> {
        self.private_key@
    }

    pub closed spec fn public_key_bytes(&self) -> Seq<u8> {
        self.public_key@
    }

    /// The private key is one that hpke accepts, and the public key is its 65-byte SEC1
    /// uncompressed point.
    pub open spec fn wf(&self) -> bool {
        &&& p256_private_key_accepted(self.private_key_bytes())
        &&& self.public_key_bytes() == p256_public_key_of(self.private_key_bytes())
        &&& p256_public_key_accepted(self.public_key_bytes())
        &&& self.public_key_bytes().len() == PUBLIC_KEY_LEN
        &&& self.public_key_bytes()[0] == 4u8
    }

    /// A key pair derived from keying material drawn from the operating system's random
    /// generator; fails with `RandomnessFailure` when the generator does.
    pub fn generate() -> (r: Result<KeyPair, ErrorKind>)
        ensures
            r matches Ok(kp) ==> kp.wf(),
            r matches Err(e) ==> e == ErrorKind::RandomnessFailure,
    {
        match random_bytes(SEED_LEN) {
            Ok(ikm) => {
                let mut ikm = ikm;
                let (private_key, public_key) = derive_p256_key_pair(ikm.as_slice());
                wipe(&mut ikm);
                Ok(KeyPair { private_key, public_key })
            },
            Err(()) => Err(ErrorKind::RandomnessFailure),
        }
    }

    /// The public key in SEC1 uncompressed form.
    pub fn get_serialized_public_key(&self) -> (r: Vec<u8>)
        ensures
            r@ == self.public_key_bytes(),
    {
        self.public_key.clone()
    }
}

/// Expands the request and response contexts of a fresh session from a session secret.
pub fn derive_session_contexts(secret: &[u8]) -> (r: (AeadContext, AeadContext))
    requires
        secret@.len() == SESSION_SECRET_LEN,
    ensures
        (SessionModel { request: r.0@, response: r.1@ }) == session_from_secret(secret@),
        r.0@.wf() && r.1@.wf(),
{
    let request_key = hkdf_expand(secret, "request_key".as_bytes(), KEY_LEN);
    let request_nonce = hkdf_expand(secret, "request_base_nonce".as_bytes(), NONCE_LEN);
    let response_key = hkdf_expand(secret, "response_key".as_bytes(), KEY_LEN);
    let response_nonce = hkdf_expand(secret, "response_base_nonce".as_bytes(), NONCE_LEN);
    (AeadContext::new(request_key, request_nonce), AeadContext::new(response_key, response_nonce))
}

/// Sender side of the setup: checks the recipient's public key, draws a random seed for the
/// ephemeral key, encapsulates and derives the request and response contexts. Returns the
/// encapsulated key with the two contexts.
pub fn setup_base_sender(recipient_public_key: &[u8]) -> (r: Result<(Vec<u8>, AeadContext, AeadContext), ErrorKind>)
    ensures
        !p256_public_key_accepted(recipient_public_key@) ==> r is Err && r->Err_0 == ErrorKind::InvalidPublicKey,
        p256_public_key_accepted(recipient_public_key@) ==> r is Ok || r->Err_0 == ErrorKind::RandomnessFailure,
        r matches Ok((enc, req, resp)) ==> {
            &&& enc@.len() == PUBLIC_KEY_LEN && enc@[0] == 4u8
            &&& p256_public_key_accepted(enc@)
            &&& req@.wf() && resp@.wf()
            &&& agreed_session(recipient_public_key@, enc@, SessionModel { request: req@, response: resp@ })
            &&& exists|secret: Seq<u8>| #![auto] secret.len() == SESSION_SECRET_LEN
                && (SessionModel { request: req@, response: resp@ }) == session_from_secret(secret)
        },
{
    if !p256_public_key_check(recipient_public_key) {
        return Err(ErrorKind::InvalidPublicKey);
    }
    let mut seed = match random_bytes(SEED_LEN) {
        Ok(seed) => seed,
        Err(()) => return Err(ErrorKind::RandomnessFailure),
    };
    let exported = hpke_sender_export(
        recipient_public_key,
        seed.as_slice(),
        "Oak Hybrid Public Key Encryption v1".as_bytes(),
        "session_secret".as_bytes(),
        SESSION_SECRET_LEN,
    );
    wipe(&mut seed);
    match exported {
        Ok((enc, secret)) => {
            let mut secret = secret;
            let (req, resp) = derive_session_contexts(secret.as_slice());
            wipe(&mut secret);
            Ok((enc, req, resp))
        },
        Err(e) => Err(e),
    }
}

/// Recipient side of the setup: decapsulates `encapsulated_key` with the key pair and derives
/// the same two contexts as the sender did.
pub fn setup_base_recipient(encapsulated_key: &[u8], key_pair: &KeyPair) -> (r: Result<(AeadContext, AeadContext), ErrorKind>)
    requires
        key_pair.wf(),
    ensures
        !p256_public_key_accepted(encapsulated_key@) ==> r is Err && r->Err_0 == ErrorKind::InvalidPublicKey,
        p256_public_key_accepted(encapsulated_key@) ==> r is Ok,
        r matches Ok((req, resp)) ==> req@.wf() && resp@.wf(),
        r matches Ok((req, resp)) ==> (SessionModel { request: req@, response: resp@ }) == recipient_session(
            key_pair.private_key_bytes(),
            encapsulated_key@,
        ),
{
    match hpke_recipient_export(key_pair.private_key.as_slice(), encapsulated_key, "Oak Hybrid Public Key Encryption v1".as_bytes(), "session_secret".as_bytes(), SESSION_SECRET_LEN) {
        Ok(secret) => {
            let mut secret = secret;
            let contexts = derive_session_contexts(secret.as_slice());
            wipe(&mut secret);
            Ok(contexts)
        },
        Err(e) => Err(e),
    }
}

} // verus!
