use oak_crypto::aead::AeadContext;
use oak_crypto::hpke::derive_session_contexts;
use oak_crypto::{
    ErrorKind, Operation, RecipientCryptoProvider, RecipientRequestDecryptor,
    SenderCryptoProvider, SenderRequestEncryptor,
};

fn start_session() -> (SenderRequestEncryptor, RecipientRequestDecryptor, Vec<u8>) {
    let recipient = RecipientCryptoProvider::new().unwrap();
    let public_key = recipient.get_serialized_public_key();
    let sender = SenderCryptoProvider::new(&public_key);
    let (enc, encryptor) = sender.create_encryptor().expect("sender setup");
    let decryptor = recipient.create_decryptor(&enc).expect("recipient setup");
    (encryptor, decryptor, enc)
}

#[test]
fn public_key_is_sec1_uncompressed() {
    let recipient = RecipientCryptoProvider::new().unwrap();
    let public_key = recipient.get_serialized_public_key();
    assert_eq!(public_key.len(), 65);
    assert_eq!(public_key[0], 0x04);
}

#[test]
fn request_and_response_round_trip() {
    let (encryptor, decryptor, enc) = start_session();
    assert_eq!(enc.len(), 65);
    let (request, response_decryptor) = encryptor.encrypt(b"hello", b"").unwrap();
    assert_eq!(request.len(), 5 + 16);
    assert_ne!(&request[..5], b"hello");
    let (plaintext, response_encryptor) = decryptor.decrypt(&request, b"").unwrap();
    assert_eq!(plaintext, b"hello".to_vec());

    let (response, _next_decryptor) = response_encryptor.encrypt(b"world", b"v=1").unwrap();
    let (plaintext, next_encryptor) = response_decryptor.decrypt(&response, b"v=1").unwrap();
    assert_eq!(plaintext, b"world".to_vec());

    let aad = vec![0xAAu8; 1024];
    let (request, _) = next_encryptor.encrypt(b"", &aad).unwrap();
    assert_eq!(request.len(), 16);
    let (plaintext, _) = _next_decryptor.decrypt(&request, &aad).unwrap();
    assert!(plaintext.is_empty());
}

#[test]
fn many_exchanges_round_trip() {
    let (mut encryptor, mut decryptor, _) = start_session();
    for i in 0..20u8 {
        let request_text = vec![i; i as usize];
        let (request, response_decryptor) = encryptor.encrypt(&request_text, &[i]).unwrap();
        let (received, response_encryptor) = decryptor.decrypt(&request, &[i]).unwrap();
        assert_eq!(received, request_text);
        let response_text = vec![i.wrapping_mul(3); 2 * i as usize + 1];
        let (response, next_decryptor) = response_encryptor.encrypt(&response_text, b"r").unwrap();
        let (received, next_encryptor) = response_decryptor.decrypt(&response, b"r").unwrap();
        assert_eq!(received, response_text);
        encryptor = next_encryptor;
        decryptor = next_decryptor;
    }
}

#[test]
fn altered_ciphertext_is_rejected() {
    let (encryptor, decryptor, _) = start_session();
    let (mut request, _) = encryptor.encrypt(b"hello", b"").unwrap();
    let last = request.len() - 1;
    request[last] ^= 0x01;
    let err = decryptor.decrypt(&request, b"").err().unwrap();
    assert_eq!(err.kind, ErrorKind::AuthenticationFailure);
    assert_eq!(err.operation, Operation::DecryptRequest);
    assert_eq!(err.operation.context(), "couldn't decrypt request");
}

#[test]
fn different_associated_data_is_rejected() {
    let (encryptor, decryptor, _) = start_session();
    let (request, _) = encryptor.encrypt(b"hello", b"aad-1").unwrap();
    let err = decryptor.decrypt(&request, b"aad-2").err().unwrap();
    assert_eq!(err.kind, ErrorKind::AuthenticationFailure);
}

#[test]
fn altered_response_is_rejected() {
    let (encryptor, decryptor, _) = start_session();
    let (request, response_decryptor) = encryptor.encrypt(b"q", b"").unwrap();
    let (_, response_encryptor) = decryptor.decrypt(&request, b"").unwrap();
    let (mut response, _) = response_encryptor.encrypt(b"a", b"").unwrap();
    response[0] ^= 0x80;
    let err = response_decryptor.decrypt(&response, b"").err().unwrap();
    assert_eq!(err.kind, ErrorKind::AuthenticationFailure);
    assert_eq!(err.operation, Operation::DecryptResponse);
}

#[test]
fn replayed_request_is_rejected() {
    let (encryptor, decryptor, _) = start_session();
    let (request, response_decryptor) = encryptor.encrypt(b"first", b"").unwrap();
    let (_, response_encryptor) = decryptor.decrypt(&request, b"").unwrap();
    let (response, next_decryptor) = response_encryptor.encrypt(b"ok", b"").unwrap();
    let _ = response_decryptor.decrypt(&response, b"").unwrap();
    let err = next_decryptor.decrypt(&request, b"").err().unwrap();
    assert_eq!(err.kind, ErrorKind::AuthenticationFailure);
}

#[test]
fn sessions_are_independent() {
    let recipient = RecipientCryptoProvider::new().unwrap();
    let sender = SenderCryptoProvider::new(&recipient.get_serialized_public_key());
    let (enc_a, encryptor_a) = sender.create_encryptor().unwrap();
    let (enc_b, encryptor_b) = sender.create_encryptor().unwrap();
    assert_ne!(enc_a, enc_b);
    let (ct_a, _) = encryptor_a.encrypt(b"same", b"").unwrap();
    let (ct_b, _) = encryptor_b.encrypt(b"same", b"").unwrap();
    assert_ne!(ct_a, ct_b);
    let decryptor_a = recipient.create_decryptor(&enc_a).unwrap();
    let err = decryptor_a.decrypt(&ct_b, b"").err().unwrap();
    assert_eq!(err.kind, ErrorKind::AuthenticationFailure);
}

#[test]
fn off_curve_recipient_key_is_rejected() {
    let mut key = vec![0u8; 65];
    key[0] = 0x04;
    let sender = SenderCryptoProvider::new(&key);
    let err = sender.create_encryptor().err().unwrap();
    assert_eq!(err.kind, ErrorKind::InvalidPublicKey);
    assert_eq!(err.operation, Operation::CreateEncryptor);
}

#[test]
fn malformed_recipient_keys_are_rejected() {
    for key in [vec![], vec![0x04u8; 64], vec![0x04u8; 66], vec![0x05u8; 65]] {
        let err = SenderCryptoProvider::new(&key).create_encryptor().err().unwrap();
        assert_eq!(err.kind, ErrorKind::InvalidPublicKey);
    }
}

#[test]
fn off_curve_encapsulated_key_is_rejected() {
    let recipient = RecipientCryptoProvider::new().unwrap();
    let mut enc = vec![0u8; 65];
    enc[0] = 0x04;
    let err = recipient.create_decryptor(&enc).err().unwrap();
    assert_eq!(err.kind, ErrorKind::InvalidPublicKey);
    assert_eq!(err.operation, Operation::CreateDecryptor);
    let err = recipient.create_decryptor(&[1, 2, 3]).err().unwrap();
    assert_eq!(err.kind, ErrorKind::InvalidPublicKey);
}

#[test]
fn wrong_recipient_cannot_decrypt() {
    let (encryptor, _, enc) = start_session();
    let other = RecipientCryptoProvider::new().unwrap();
    let decryptor = other.create_decryptor(&enc).unwrap();
    let (request, _) = encryptor.encrypt(b"secret", b"").unwrap();
    assert_eq!(decryptor.decrypt(&request, b"").err().unwrap().kind, ErrorKind::AuthenticationFailure);
}

#[test]
fn nonce_is_base_xor_counter() {
    let base: Vec<u8> = (1..=12u8).collect();
    let mut ctx = AeadContext::new(vec![7u8; 16], base.clone());
    assert_eq!(ctx.seq(), 0);
    assert_eq!(ctx.current_nonce(), base);
    for _ in 0..0x0102 {
        ctx.seal(b"x", b"").unwrap();
    }
    assert_eq!(ctx.seq(), 0x0102);
    let mut expected = base.clone();
    expected[10] ^= 0x01;
    expected[11] ^= 0x02;
    assert_eq!(ctx.current_nonce(), expected);
}

#[test]
fn failed_open_keeps_counter() {
    let mut ctx = AeadContext::new(vec![7u8; 16], vec![0u8; 12]);
    assert_eq!(ctx.open(&[0u8; 20], b""), Err(ErrorKind::AuthenticationFailure));
    assert_eq!(ctx.seq(), 0);
    let mut sealer = AeadContext::new(vec![7u8; 16], vec![0u8; 12]);
    let ct = sealer.seal(b"abc", b"d").unwrap();
    assert_eq!(sealer.seq(), 1);
    assert_eq!(ctx.open(&ct, b"d"), Ok(b"abc".to_vec()));
    assert_eq!(ctx.seq(), 1);
}

#[test]
fn session_contexts_follow_the_secret() {
    let secret = [9u8; 32];
    let (mut request_a, mut response_a) = derive_session_contexts(&secret);
    let (mut request_b, _) = derive_session_contexts(&secret);
    let ct_request_a = request_a.seal(b"message", b"").unwrap();
    let ct_request_b = request_b.seal(b"message", b"").unwrap();
    let ct_response_a = response_a.seal(b"message", b"").unwrap();
    assert_eq!(ct_request_a, ct_request_b);
    assert_ne!(ct_request_a, ct_response_a);
    let mut zero_key = AeadContext::new(vec![0u8; 16], vec![0u8; 12]);
    assert_ne!(zero_key.seal(b"message", b"").unwrap(), ct_request_a);
}

#[test]
fn ciphertext_shorter_than_tag_is_rejected() {
    let (_, decryptor, _) = start_session();
    let err = decryptor.decrypt(&[0u8; 15], b"").err().unwrap();
    assert_eq!(err.kind, ErrorKind::AuthenticationFailure);
}

#[test]
fn same_encapsulated_key_gives_equal_decryptors() {
    let recipient = RecipientCryptoProvider::new().unwrap();
    let sender = SenderCryptoProvider::new(&recipient.get_serialized_public_key());
    let (enc, encryptor) = sender.create_encryptor().unwrap();
    assert_eq!(enc[0], 0x04);
    let first = recipient.create_decryptor(&enc).unwrap();
    let second = recipient.create_decryptor(&enc).unwrap();
    let (request, _) = encryptor.encrypt(b"twice", b"a").unwrap();
    assert_eq!(request.len(), 21);
    assert_eq!(first.decrypt(&request, b"a").unwrap().0, b"twice".to_vec());
    assert_eq!(second.decrypt(&request, b"a").unwrap().0, b"twice".to_vec());
}

#[test]
fn error_contexts_name_the_operation() {
    assert_eq!(Operation::CreateRecipient.context(), "couldn't generate recipient key pair");
    assert_eq!(Operation::CreateEncryptor.context(), "couldn't create sender request encryptor");
    assert_eq!(Operation::EncryptRequest.context(), "couldn't encrypt request");
    assert_eq!(Operation::DecryptResponse.context(), "couldn't decrypt response");
    assert_eq!(Operation::CreateDecryptor.context(), "couldn't create recipient request decryptor");
    assert_eq!(Operation::EncryptResponse.context(), "couldn't encrypt response");
}
