use aes_gcm::aead::{Aead, KeyInit};
use aes_gcm::{Aes256Gcm, Key, Nonce};
use zerovault::cipher::{seal, unseal, MAX_PLAINTEXT_LEN, NONCE_LEN, TAG_LEN};
use zerovault::error::VaultError;

fn test_key() -> [u8; 32] {
    let mut key = [0u8; 32];
    for i in 0usize..32 {
        key[i] = (i * 7 + 1) as u8;
    }
    key
}

#[test]
fn tag_length_and_plaintext_limit() {
    assert_eq!(NONCE_LEN, 12);
    assert_eq!(TAG_LEN, 16);
    assert_eq!(MAX_PLAINTEXT_LEN, 68_719_476_736);
}

#[test]
fn seal_of_nothing_under_the_zero_key_is_the_known_tag() {
    let mut key = [0u8; 32];
    let sealed = seal(&mut key, &[0u8; 12], &[]).unwrap();
    let expected: Vec<u8> = vec![
        0x53, 0x0f, 0x8a, 0xfb, 0xc7, 0x45, 0x36, 0xb9, 0xa9, 0x63, 0xb4, 0xf1, 0xc4, 0xcb, 0x73,
        0x8b,
    ];
    assert_eq!(sealed, expected);
}

#[test]
fn seal_of_a_zero_block_under_the_zero_key_is_the_known_ciphertext() {
    let mut key = [0u8; 32];
    let sealed = seal(&mut key, &[0u8; 12], &[0u8; 16]).unwrap();
    let expected: Vec<u8> = vec![
        0xce, 0xa7, 0x40, 0x3d, 0x4d, 0x60, 0x6b, 0x6e, 0x07, 0x4e, 0xc5, 0xd3, 0xba, 0xf3, 0x9d,
        0x18, 0xd0, 0xd1, 0xc8, 0xa7, 0x99, 0x99, 0x6b, 0xf0, 0x26, 0x5b, 0x98, 0xb5, 0xd4, 0x8a,
        0xb9, 0x19,
    ];
    assert_eq!(sealed, expected);
}

#[test]
fn seal_is_aes_256_gcm_without_associated_data() {
    let key = test_key();
    let nonce: [u8; 12] = [9, 8, 7, 6, 5, 4, 3, 2, 1, 0, 1, 2];
    let cipher = Aes256Gcm::new(Key::<Aes256Gcm>::from_slice(&key));
    let expected = cipher.encrypt(Nonce::from_slice(&nonce), b"hello world".as_ref()).unwrap();
    let mut used = key;
    assert_eq!(seal(&mut used, &nonce, b"hello world"), Ok(expected));
}

#[test]
fn seal_adds_the_tag_length() {
    let nonce: [u8; 12] = [1; 12];
    for len in [0usize, 1, 15, 16, 17, 1000] {
        let plaintext: Vec<u8> = vec![0x42; len];
        let mut key = test_key();
        let sealed = seal(&mut key, &nonce, &plaintext).unwrap();
        assert_eq!(sealed.len(), len + 16);
    }
}

#[test]
fn seal_does_not_hand_back_the_plaintext() {
    let mut key = test_key();
    let plaintext: [u8; 64] = [0x42; 64];
    let sealed = seal(&mut key, &[1; 12], &plaintext).unwrap();
    assert_ne!(&sealed[..64], &plaintext[..]);
}

#[test]
fn seal_wipes_the_key() {
    let mut key = test_key();
    let sealed = seal(&mut key, &[1; 12], b"secret");
    assert!(sealed.is_ok());
    assert_eq!(key, [0u8; 32]);
}

#[test]
fn unseal_inverts_seal() {
    let nonce: [u8; 12] = [5; 12];
    let mut key = test_key();
    let sealed = seal(&mut key, &nonce, b"attack at dawn").unwrap();
    let mut again = test_key();
    assert_eq!(unseal(&mut again, &nonce, &sealed), Ok(b"attack at dawn".to_vec()));
}

#[test]
fn unseal_inverts_seal_of_nothing() {
    let nonce: [u8; 12] = [5; 12];
    let mut key = test_key();
    let sealed = seal(&mut key, &nonce, &[]).unwrap();
    assert_eq!(sealed.len(), 16);
    let mut again = test_key();
    assert_eq!(unseal(&mut again, &nonce, &sealed), Ok(Vec::new()));
}

#[test]
fn unseal_wipes_the_key_on_success() {
    let nonce: [u8; 12] = [5; 12];
    let mut key = test_key();
    let sealed = seal(&mut key, &nonce, b"attack at dawn").unwrap();
    let mut again = test_key();
    assert!(unseal(&mut again, &nonce, &sealed).is_ok());
    assert_eq!(again, [0u8; 32]);
}

#[test]
fn unseal_wipes_the_key_on_failure() {
    let mut key = test_key();
    let outcome = unseal(&mut key, &[5; 12], &[0u8; 40]);
    assert_eq!(outcome, Err(VaultError::Authentication));
    assert_eq!(key, [0u8; 32]);
}

#[test]
fn unseal_rejects_input_shorter_than_a_tag() {
    for len in 0usize..16 {
        let mut key = test_key();
        let sealed: Vec<u8> = vec![0; len];
        assert_eq!(unseal(&mut key, &[5; 12], &sealed), Err(VaultError::Authentication));
    }
}

#[test]
fn unseal_rejects_every_flipped_bit() {
    let nonce: [u8; 12] = [5; 12];
    let mut key = test_key();
    let sealed = seal(&mut key, &nonce, b"hello world").unwrap();
    assert_eq!(sealed.len(), 27);
    for i in 0usize..sealed.len() {
        for bit in 0u8..8 {
            let mut altered = sealed.clone();
            altered[i] ^= 1 << bit;
            let mut again = test_key();
            assert_eq!(unseal(&mut again, &nonce, &altered), Err(VaultError::Authentication));
        }
    }
}

#[test]
fn unseal_rejects_another_key() {
    let nonce: [u8; 12] = [5; 12];
    let mut key = test_key();
    let sealed = seal(&mut key, &nonce, b"hello world").unwrap();
    let mut other = test_key();
    other[0] ^= 1;
    assert_eq!(unseal(&mut other, &nonce, &sealed), Err(VaultError::Authentication));
}

#[test]
fn unseal_rejects_another_nonce() {
    let mut key = test_key();
    let sealed = seal(&mut key, &[5; 12], b"hello world").unwrap();
    let mut again = test_key();
    let mut nonce: [u8; 12] = [5; 12];
    nonce[11] ^= 1;
    assert_eq!(unseal(&mut again, &nonce, &sealed), Err(VaultError::Authentication));
}

#[test]
fn unseal_rejects_truncated_and_extended_input() {
    let nonce: [u8; 12] = [5; 12];
    let mut key = test_key();
    let sealed = seal(&mut key, &nonce, b"hello world").unwrap();
    let mut again = test_key();
    assert_eq!(
        unseal(&mut again, &nonce, &sealed[..sealed.len() - 1]),
        Err(VaultError::Authentication)
    );
    let mut longer = sealed.clone();
    longer.push(0);
    let mut third = test_key();
    assert_eq!(unseal(&mut third, &nonce, &longer), Err(VaultError::Authentication));
}
