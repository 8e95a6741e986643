//! Facts about whole exchanges between a sender and a recipient that hold the same session.
use vstd::prelude::*;
use crate::aead::{nonce_for, seq_byte, ContextModel, NONCE_LEN, SEQ_LIMIT};
use crate::error::ErrorKind;
use crate::hpke::{
    agreed_session, p256_private_key_accepted, p256_public_key_of, recipient_session, SessionModel,
};

verus! {

/// The session after `n` request/response pairs.
pub open spec fn after_exchanges(s: SessionModel, n: nat) -> SessionModel
    decreases n,
{
    if n == 0 {
        s
    } else {
        after_exchanges(s, (n - 1) as nat).after_request().after_response()
    }
}

/// A sender that was given the recipient's public key and the recipient holding the matching
/// private key derive the same session from one encapsulated key.
pub proof fn lemma_handshake_agrees(
    private_key: Seq<u8>,
    public_key: Seq<u8>,
    encapsulated_key: Seq<u8>,
    sender_session: SessionModel,
)
    requires
        p256_private_key_accepted(private_key),
        p256_public_key_of(private_key) == public_key,
        agreed_session(public_key, encapsulated_key, sender_session),
    ensures
        sender_session == recipient_session(private_key, encapsulated_key),
{
    assert(p256_public_key_of(private_key) == public_key);
}

/// A request that the sender seals in session `sender` is opened by a recipient holding the same
/// session, with the same associated data, into the same plaintext; afterwards both sides again
/// hold the same session.
pub proof fn lemma_request_round_trip(
    sender: SessionModel,
    recipient: SessionModel,
    aad: Seq<u8>,
    plaintext: Seq<u8>,
    ciphertext: Seq<u8>,
)
    requires
        sender == recipient,
        sender.request.sealed(aad, plaintext, ciphertext),
    ensures
        recipient.request.open_outcome(aad, ciphertext) == Ok::<Seq<u8>, ErrorKind>(plaintext),
        sender.after_request() == recipient.after_request(),
{
}

/// A response that the recipient seals is opened by the sender holding the same session, with
/// the same associated data, into the same plaintext; afterwards both sides again hold the same
/// session.
pub proof fn lemma_response_round_trip(
    sender: SessionModel,
    recipient: SessionModel,
    aad: Seq<u8>,
    plaintext: Seq<u8>,
    ciphertext: Seq<u8>,
)
    requires
        sender == recipient,
        recipient.response.sealed(aad, plaintext, ciphertext),
    ensures
        sender.response.open_outcome(aad, ciphertext) == Ok::<Seq<u8>, ErrorKind>(plaintext),
        sender.after_response() == recipient.after_response(),
{
}

/// In a session that starts with both counters at zero and keeps its keys, the counters after
/// `n` request/response pairs are both `n`: the pair numbered `n + 1` is sealed and opened at
/// sequence number `n` in both directions.
pub proof fn lemma_exchange_counters(s: SessionModel, n: nat)
    requires
        s.request.seq == 0,
        s.response.seq == 0,
        n < SEQ_LIMIT,
    ensures
        after_exchanges(s, n).request.seq == n,
        after_exchanges(s, n).response.seq == n,
        after_exchanges(s, n).request.key == s.request.key,
        after_exchanges(s, n).request.base_nonce == s.request.base_nonce,
        after_exchanges(s, n).response.key == s.response.key,
        after_exchanges(s, n).response.base_nonce == s.response.base_nonce,
        after_exchanges(s, n).request.nonce() == nonce_for(s.request.base_nonce, n as u64),
        after_exchanges(s, n).response.nonce() == nonce_for(s.response.base_nonce, n as u64),
    decreases n,
{
    if n > 0 {
        lemma_exchange_counters(s, (n - 1) as nat);
    }
}

/// Two different counters give two different nonces from the same base nonce: no two messages
/// of one direction share a nonce, so a ciphertext replayed after the session advanced is opened
/// under another nonce than the one it was sealed with.
pub proof fn lemma_nonces_distinct(base_nonce: Seq<u8>, a: u64, b: u64)
    requires
        base_nonce.len() == NONCE_LEN,
        a != b,
    ensures
        nonce_for(base_nonce, a) != nonce_for(base_nonce, b),
{
    if nonce_for(base_nonce, a) == nonce_for(base_nonce, b) {
        assert forall|i: int| 4 <= i < 12 implies seq_byte(a, i) == seq_byte(b, i) by {
            let x = base_nonce[i];
            let p = seq_byte(a, i);
            let q = seq_byte(b, i);
            assert(nonce_for(base_nonce, a)[i] == x ^ p);
            assert(nonce_for(base_nonce, b)[i] == x ^ q);
            assert((x ^ p) == (x ^ q) ==> p == q) by (bit_vector);
        }
        assert(seq_byte(a, 4) == seq_byte(b, 4));
        assert(seq_byte(a, 5) == seq_byte(b, 5));
        assert(seq_byte(a, 6) == seq_byte(b, 6));
        assert(seq_byte(a, 7) == seq_byte(b, 7));
        assert(seq_byte(a, 8) == seq_byte(b, 8));
        assert(seq_byte(a, 9) == seq_byte(b, 9));
        assert(seq_byte(a, 10) == seq_byte(b, 10));
        assert(seq_byte(a, 11) == seq_byte(b, 11));
        assert((((a >> 56u64) & 0xffu64) as u8 == ((b >> 56u64) & 0xffu64) as u8
            && ((a >> 48u64) & 0xffu64) as u8 == ((b >> 48u64) & 0xffu64) as u8
            && ((a >> 40u64) & 0xffu64) as u8 == ((b >> 40u64) & 0xffu64) as u8
            && ((a >> 32u64) & 0xffu64) as u8 == ((b >> 32u64) & 0xffu64) as u8
            && ((a >> 24u64) & 0xffu64) as u8 == ((b >> 24u64) & 0xffu64) as u8
            && ((a >> 16u64) & 0xffu64) as u8 == ((b >> 16u64) & 0xffu64) as u8
            && ((a >> 8u64) & 0xffu64) as u8 == ((b >> 8u64) & 0xffu64) as u8
            && ((a >> 0u64) & 0xffu64) as u8 == ((b >> 0u64) & 0xffu64) as u8) ==> a == b)
            by (bit_vector);
    }
}

/// After the recipient has opened a request, the same ciphertext is next opened under a nonce
/// that differs from the one it was sealed with.
pub proof fn lemma_replay_uses_new_nonce(request: ContextModel)
    requires
        request.wf(),
        request.seq < SEQ_LIMIT,
    ensures
        request.advanced().nonce() != request.nonce(),
{
    lemma_nonces_distinct(request.base_nonce, (request.seq + 1) as u64, request.seq);
}

} // verus!
