use account_server::extractors::Helper;
use account_server::routes::auth::LoginRequestDto;
use account_server::error::ServerError;
use account_server::utils::{
    decrypt_rsa, decrypt_rsa_to_utf8, encode_base64, encrypt_rsa, hash_password, sign_rsa,
    verify_password, verify_rsa, UtilError,
};
use account_server::keys::{RsaPrivateParts, RsaPublicParts};
use rsa::traits::{PrivateKeyParts, PublicKeyParts};
use rsa::{RsaPrivateKey, RsaPublicKey};

fn private_parts(key: &RsaPrivateKey) -> RsaPrivateParts {
    RsaPrivateParts::new(
        key.n().to_bytes_be(),
        key.e().to_bytes_be(),
        key.d().to_bytes_be(),
        key.primes().iter().map(|p| p.to_bytes_be()).collect(),
    )
    .unwrap()
}

fn key_pair() -> (RsaPrivateParts, RsaPublicParts) {
    let mut rng = rand::thread_rng();
    let private_key = RsaPrivateKey::new(&mut rng, 1024).unwrap();
    let public_key = RsaPublicKey::from(&private_key);
    let public = RsaPublicParts { n: public_key.n().to_bytes_be(), e: public_key.e().to_bytes_be() };
    (private_parts(&private_key), public)
}

#[test]
fn password_hash_accepts_its_password() {
    let hash = hash_password("Admin@132");
    assert!(hash.starts_with("$argon2id$v=19$m=19456,t=2,p=1$"));
    assert!(verify_password("Admin@132", &hash));
    assert!(!verify_password("admin@132", &hash));
    assert!(!verify_password("Admin@132", "not a phc string"));
    assert!(!verify_password("Admin@132", ""));
    assert_ne!(hash, hash_password("Admin@132"));
}

#[test]
fn rsa_signatures_verify() {
    let (private_key, public_key) = key_pair();
    let signature = sign_rsa(&private_key, b"message").unwrap();
    assert_eq!(signature.len(), 128);
    assert_eq!(verify_rsa(&public_key, "message", &signature), Ok(()));
    assert!(matches!(verify_rsa(&public_key, "other", &signature), Err(UtilError::InvalidSignature(m)) if m.starts_with("signature error")));
    assert!(matches!(verify_rsa(&public_key, "message", &signature[..61]), Err(UtilError::InvalidSignature(_))));
    let ciphertext = encrypt_rsa(&public_key, b"abc").unwrap();
    assert_eq!(ciphertext.len(), 128);
}

#[test]
fn rsa_encryption_round_trip() {
    let (private_key, public_key) = key_pair();
    let ciphertext = encrypt_rsa(&public_key, "secret ü".as_bytes()).unwrap();
    assert_eq!(decrypt_rsa(&private_key, &ciphertext).unwrap(), "secret ü".as_bytes());
    assert_eq!(decrypt_rsa_to_utf8(&private_key, &ciphertext).unwrap(), "secret ü");
    assert_eq!(decrypt_rsa(&private_key, &[1, 2, 3]), Err(UtilError::DecryptionFailed("decryption error".to_string())));
    let too_long = vec![0u8; 200];
    assert_eq!(encrypt_rsa(&public_key, &too_long), Err(UtilError::EncryptionFailed("message too long".to_string())));
}

#[test]
fn helper_decrypts_base64_ciphertext() {
    let (private_key, public_key) = key_pair();
    let ciphertext = encrypt_rsa(&public_key, b"pa55word").unwrap();
    let helper = Helper::new(private_key, public_key);
    assert_eq!(helper.decrypt_rsa(&encode_base64(&ciphertext)).unwrap(), "pa55word");
    match helper.decrypt_rsa("not base64!") {
        Err(ServerError::Anyhow(m)) => assert_eq!(m, "Invalid symbol 32, offset 3."),
        _ => panic!("expected a base64 error"),
    }
    let encrypted = helper.encrypt_rsa("hi").unwrap();
    assert_eq!(helper.decrypt_rsa(&encrypted).unwrap(), "hi");
    let signature = helper.sign_rsa("hello").unwrap();
    assert!(helper.verify_rsa("hello", &signature).is_ok());
    assert!(helper.verify_rsa("hullo", &signature).is_err());
}

#[test]
fn login_request_is_prepared_with_decrypted_password() {
    let (private_key, public_key) = key_pair();
    let ciphertext = encrypt_rsa(&public_key, b"Admin@132").unwrap();
    let public_copy = RsaPublicParts { n: public_key.n.clone(), e: public_key.e.clone() };
    let helper = Helper::new(private_key, public_copy);
    let request = LoginRequestDto {
        account: "admin".to_string(),
        password: encode_base64(&ciphertext),
        ip: None,
        platform: Some("web".to_string()),
        agent: None,
    };
    let params = request.prepare("curl/8", &helper).unwrap();
    assert_eq!(params.account, "admin");
    assert_eq!(params.password, "Admin@132");
    assert_eq!(params.platform, Some("web".to_string()));
    assert_eq!(params.agent, Some("curl/8".to_string()));

    let not_text = encrypt_rsa(&public_key, &[0xff, 0xfe]).unwrap();
    let request = LoginRequestDto {
        account: "admin".to_string(),
        password: encode_base64(&not_text),
        ip: None,
        platform: None,
        agent: None,
    };
    match request.prepare("curl/8", &helper) {
        Err(ServerError::Anyhow(m)) => assert!(m.starts_with("invalid utf-8 sequence")),
        _ => panic!("expected a UTF-8 error"),
    }
}

#[test]
fn rsa_key_parts_are_checked() {
    assert!(RsaPrivateParts::new(vec![15], vec![3], vec![3], vec![vec![3]]).is_none());
    let (private_key, public_key) = key_pair();
    assert_eq!(private_key.n(), &public_key.n);
    assert_eq!(private_key.primes().len(), 2);
    // a message one byte too long for a 128-byte modulus is refused, one that fits is not
    assert_eq!(encrypt_rsa(&public_key, &[7u8; 118]), Err(UtilError::EncryptionFailed("message too long".to_string())));
    let c = encrypt_rsa(&public_key, &[7u8; 117]).unwrap();
    assert_eq!(decrypt_rsa(&private_key, &c).unwrap(), vec![7u8; 117]);
    // an even exponent makes the public key unusable
    let bad = RsaPublicParts { n: public_key.n.clone(), e: vec![4] };
    assert_eq!(encrypt_rsa(&bad, b"x"), Err(UtilError::EncryptionFailed("invalid exponent".to_string())));
    // a 32-byte modulus is too short for a SHA-256 signature
    let small = RsaPrivateKey::new(&mut rand::thread_rng(), 256).unwrap();
    assert!(matches!(sign_rsa(&private_parts(&small), b"m"), Err(UtilError::SigningFailed(m)) if m.starts_with("signature error")));
}
