//! Password hashing, RSA, base64, percent encoding and digests used by the
//! authentication flow and the upload service.

use vstd::prelude::*;
use vstd::string::StringSliceAdditionalSpecFns;
use vstd::utf8::{decode_utf8, encode_utf8, valid_utf8};

use crate::keys::{
    be_len, be_value, byte_seqs, public_key_accepted, rsa_key_valid, RsaPrivateParts, RsaPublicParts,
};
use crate::codec::{
    base64_encode, lemma_base64_encode_injective, lower_hex, percent_decode, percent_encode,
    to_hex_lower,
};

use argon2::password_hash::rand_core::OsRng;
use argon2::password_hash::{PasswordHash, PasswordHasher, PasswordVerifier, SaltString};
use argon2::Argon2;
use base64::prelude::BASE64_STANDARD;
use base64::Engine;
use rsa::pkcs1v15::{Signature, SigningKey, VerifyingKey};
use rsa::signature::{SignatureEncoding, Signer, Verifier};
use rsa::{BigUint, Pkcs1v15Encrypt, RsaPrivateKey, RsaPublicKey};
use sha2::Sha256;

verus! {

#[verifier::external_type_specification]
#[verifier::external_body]
pub struct ExMd5Context(md5::Context);

/// Why an encoding, decoding or cryptographic step failed, with the message
/// of the component that refused.
#[derive(Debug, Clone, PartialEq, Eq)]
pub enum UtilError {
    /// The text is not standard padded base64.
    InvalidBase64(String),
    /// The bytes are not valid UTF-8.
    InvalidUtf8(String),
    /// RSA signing failed.
    SigningFailed(String),
    /// The signature does not match the message under the key.
    InvalidSignature(String),
    /// RSA decryption failed.
    DecryptionFailed(String),
    /// RSA encryption failed.
    EncryptionFailed(String),
}

/// The message of the `base64::DecodeError` that `BASE64_STANDARD.decode`
/// gives for a text, as it displays.
pub uninterp spec fn base64_error_text(input: Seq<char>) -> Seq<char>;

/// The message of the `FromUtf8Error` that `String::from_utf8` gives for
/// bytes, as it displays.
pub uninterp spec fn utf8_error_text(bytes: Seq<u8>) -> Seq<char>;

/// Whether the Argon2 password hash in PHC string format `phc` accepts the
/// password bytes, as `argon2::Argon2::default().verify_password` decides
/// after `argon2::PasswordHash::new` has parsed the string (a string that does
/// not parse accepts nothing).
pub uninterp spec fn argon2_accepts(password: Seq<u8>, phc: Seq<char>) -> bool;

/// The MD5 digest of a byte string, as `md5::compute` returns it.
pub uninterp spec fn md5_digest(data: Seq<u8>) -> Seq<u8>;

/// The BLAKE3 digest of a byte string, as `blake3::hash` returns it.
pub uninterp spec fn blake3_digest(data: Seq<u8>) -> Seq<u8>;

/// The PHC prefix of a hash made with the default Argon2 parameters
/// (Argon2id, version 19, 19 MiB of memory, 2 passes, 1 lane).
pub open spec fn argon2_default_phc_prefix() -> Seq<char> {
    "$argon2id$v=19$m=19456,t=2,p=1$"@
}

/// Calls `argon2::Argon2::default().hash_password` with a salt from
/// `SaltString::generate(&mut OsRng)`.  The salt is random, so the string is
/// not a function of the password; the contract claims only that the result
/// starts with the default-parameter PHC prefix and that
/// `Argon2::verify_password` accepts the password against it.
#[verifier::external_body]
fn argon2_hash(password: &str) -> (res: String)
    requires
        password.spec_bytes().len() <= u32::MAX,
    ensures
        argon2_accepts(password.spec_bytes(), res@),
        res@.len() >= argon2_default_phc_prefix().len(),
        res@.take(argon2_default_phc_prefix().len() as int) == argon2_default_phc_prefix(),
{
    let salt = SaltString::generate(&mut OsRng);
    Argon2::default().hash_password(password.as_bytes(), &salt).unwrap().to_string()
}

/// Calls `argon2::PasswordHash::new` on the PHC string and, when it parses,
/// `argon2::Argon2::default().verify_password`; the result is named by
/// `argon2_accepts`.  The source shows besides that a PHC string must begin
/// with `$`: an empty string, or one that begins otherwise, does not parse
/// and accepts nothing.
#[verifier::external_body]
fn argon2_verify(password: &str, phc: &str) -> (res: bool)
    ensures
        res == argon2_accepts(password.spec_bytes(), phc@),
        (phc@.len() == 0 || phc@[0] != '$') ==> !res,
{
    match PasswordHash::new(phc) {
        Ok(parsed) => Argon2::default().verify_password(password.as_bytes(), &parsed).is_ok(),
        Err(_) => false,
    }
}

/// Calls `BASE64_STANDARD.encode` of the `base64` crate: standard alphabet,
/// `=` padding.
#[verifier::external_body]
fn base64_standard_encode(input: &[u8]) -> (res: String)
    ensures
        res@ == base64_encode(input@),
{
    BASE64_STANDARD.encode(input)
}

/// Calls `BASE64_STANDARD.decode` of the `base64` crate on the bytes of the
/// text.  Its configuration requires canonical padding and refuses trailing
/// bits, so it accepts exactly the texts that `encode` produces: the contract
/// says that a decoded value encodes back to the text, and that a text is
/// refused only when no byte string encodes to it.
/// A refusal is reported with the error's message, named by
/// `base64_error_text`.
#[verifier::external_body]
fn base64_standard_decode(input: &str) -> (res: Result<Vec<u8>, String>)
    ensures
        match res {
            Ok(v) => base64_encode(v@) == input@,
            Err(m) => (forall|v: Seq<u8>| #[trigger] base64_encode(v) != input@) && m@
                == base64_error_text(input@),
        },
{
    match BASE64_STANDARD.decode(input.as_bytes()) {
        Ok(v) => Ok(v),
        Err(e) => Err(e.to_string()),
    }
}

/// Calls `String::from_utf8`, which succeeds exactly on valid UTF-8; a
/// refusal is reported with the error's message, named by
/// `utf8_error_text`.
#[verifier::external_body]
fn string_from_utf8(bytes: Vec<u8>) -> (res: Result<String, String>)
    ensures
        match res {
            Ok(s) => valid_utf8(bytes@) && s@ == decode_utf8(bytes@),
            Err(m) => !valid_utf8(bytes@) && m@ == utf8_error_text(bytes@),
        },
{
    match String::from_utf8(bytes) {
        Ok(s) => Ok(s),
        Err(e) => Err(e.to_string()),
    }
}

/// Calls `urlencoding::encode`, which percent-encodes every byte of the UTF-8
/// text except ASCII letters, digits and `-`, `.`, `_`, `~`.
#[verifier::external_body]
fn url_encode(input: &str) -> (res: String)
    ensures
        res@ == percent_encode(input.spec_bytes()),
{
    urlencoding::encode(input).into_owned()
}

/// Calls `urlencoding::decode`: lenient percent decoding of the UTF-8 bytes of
/// the text, then `String::from_utf8` on the decoded bytes, whose refusal is
/// reported with its message.
#[verifier::external_body]
fn url_decode(input: &str) -> (res: Result<String, String>)
    ensures
        match res {
            Ok(s) => valid_utf8(percent_decode(input.spec_bytes())) && s@ == decode_utf8(
                percent_decode(input.spec_bytes()),
            ),
            Err(m) => !valid_utf8(percent_decode(input.spec_bytes())) && m@ == utf8_error_text(
                percent_decode(input.spec_bytes()),
            ),
        },
{
    match urlencoding::decode(input) {
        Ok(text) => Ok(text.into_owned()),
        Err(e) => Err(e.to_string()),
    }
}

/// Calls `blake3::hash` and returns the 32 bytes of the digest.
#[verifier::external_body]
fn blake3_hash(input: &[u8]) -> (res: Vec<u8>)
    ensures
        res@ == blake3_digest(input@),
        res@.len() == 32,
{
    blake3::hash(input).as_bytes().to_vec()
}

/// Calls `md5::compute` and returns the 16 bytes of the digest.
#[verifier::external_body]
fn md5_compute(input: &[u8]) -> (res: Vec<u8>)
    ensures
        res@ == md5_digest(input@),
        res@.len() == 16,
{
    md5::compute(input).0.to_vec()
}

/// Starts a stream with `md5::Context::new`; the bytes fed so far, which the
/// stream records in its ghost field, are none.
#[verifier::external_body]
fn md5_stream_start() -> (res: Md5Stream)
    ensures
        res@ == Seq::<u8>::empty(),
{
    Md5Stream { context: md5::Context::new(), fed: Ghost(Seq::empty()) }
}

/// Feeds bytes to the stream's context with `md5::Context::consume`; the
/// stream's record of the bytes fed grows by them.
#[verifier::external_body]
fn md5_stream_feed(stream: &mut Md5Stream, data: &[u8])
    ensures
        final(stream)@ == old(stream)@ + data@,
{
    stream.context.consume(data)
}

/// Ends the stream with `md5::Context::finalize`: the digest of every byte
/// fed since the start, the same value that `md5::compute` gives for those
/// bytes at once (`compute` is `new`, one `consume` and `finalize`).
#[verifier::external_body]
fn md5_stream_digest(stream: Md5Stream) -> (res: Vec<u8>)
    ensures
        res@ == md5_digest(stream@),
        res@.len() == 16,
{
    stream.context.finalize().0.to_vec()
}

/// The RSASSA-PKCS1-v1_5 SHA-256 signature of a message under the private
/// key with the given big-endian components, as
/// `RsaPrivateKey::from_components` followed by
/// `SigningKey::<Sha256>::try_sign` computes it (deterministically: no
/// blinding); when either refuses, the message of its error.
pub uninterp spec fn rsa_sha256_signing(
    n: Seq<u8>,
    e: Seq<u8>,
    d: Seq<u8>,
    primes: Seq<Seq<u8>>,
    message: Seq<u8>,
) -> Result<Seq<u8>, Seq<char>>;

/// What `VerifyingKey::<Sha256>::verify` answers for the signature of the
/// message under the public key with the given big-endian components: `Ok`
/// when it accepts, the message of its error otherwise.
pub uninterp spec fn rsa_sha256_verification(
    n: Seq<u8>,
    e: Seq<u8>,
    message: Seq<u8>,
    signature: Seq<u8>,
) -> Result<(), Seq<char>>;

/// Whether the signature of the message is accepted under the public key.
pub open spec fn rsa_sha256_signature_accepted(
    n: Seq<u8>,
    e: Seq<u8>,
    message: Seq<u8>,
    signature: Seq<u8>,
) -> bool {
    rsa_sha256_verification(n, e, message, signature) is Ok
}

/// The PKCS#1 v1.5 decryption of a ciphertext under the private key with the
/// given big-endian components, as `RsaPrivateKey::from_components` followed
/// by `RsaPrivateKey::decrypt` computes it (without blinding); when either
/// refuses, the message of its error.
pub uninterp spec fn rsa_pkcs1v15_decryption(
    n: Seq<u8>,
    e: Seq<u8>,
    d: Seq<u8>,
    primes: Seq<Seq<u8>>,
    ciphertext: Seq<u8>,
) -> Result<Seq<u8>, Seq<char>>;

/// The contents of a byte vector or an error message.
pub open spec fn bytes_result(v: Result<Vec<u8>, String>) -> Result<Seq<u8>, Seq<char>> {
    match v {
        Ok(b) => Ok(b@),
        Err(m) => Err(m@),
    }
}

/// The message with which `RsaPublicKey::encrypt` refuses a message for the
/// public key `(n, e)`: that of the key check (`check_public`) when the key
/// is unusable, and `message too long` otherwise.
pub open spec fn rsa_encryption_refusal(n: Seq<u8>, e: Seq<u8>) -> Seq<char> {
    let nv = be_value(n);
    let ev = be_value(e);
    if ev >= 0x1_0000_0000_0000_0000 {
        "public exponent too large"@
    } else if ev >= nv || nv % 2 == 0 {
        "invalid modulus"@
    } else if ev % 2 == 0 {
        "invalid exponent"@
    } else if ev < 2 {
        "public exponent too small"@
    } else if ev > 0x1_ffff_ffff {
        "public exponent too large"@
    } else {
        "message too long"@
    }
}

/// Whether `c` is a PKCS#1 v1.5 encryption of `m` under the public key
/// `(n, e)`: it is as long as the modulus, and every private key with that
/// public key decrypts it to `m`.
pub open spec fn rsa_ciphertext_of(n: Seq<u8>, e: Seq<u8>, m: Seq<u8>, c: Seq<u8>) -> bool {
    &&& c.len() == be_len(n)
    &&& forall|d: Seq<u8>, primes: Seq<Seq<u8>>|
        rsa_key_valid(n, e, d, primes) ==> #[trigger] rsa_pkcs1v15_decryption(n, e, d, primes, c)
            == Ok::<Seq<u8>, Seq<char>>(m)
}

/// Builds the private key with `RsaPrivateKey::from_components` from the
/// components read as big-endian numbers, then signs with
/// `SigningKey::<Sha256>::try_sign`; an error is reported with its message.
/// The result is named by `rsa_sha256_signing`.  The source shows besides: a signature is exactly
/// as long as the modulus; for a genuine key (`rsa_key_valid`) signing fails
/// only when the modulus cannot hold the 19-byte SHA-256 `DigestInfo` prefix,
/// the 32-byte digest and 11 bytes of padding (62 bytes), and
/// `VerifyingKey::verify` accepts the signature under the same modulus and
/// public exponent.  `from_components` panics for fewer than two primes when
/// the private exponent or the modulus is zero; two primes are required.
#[verifier::external_body]
fn rsa_sign_sha256(n: &[u8], e: &[u8], d: &[u8], primes: &Vec<Vec<u8>>, message: &[u8]) -> (res: Result<Vec<u8>, String>)
    requires
        primes@.len() >= 2,
    ensures
        bytes_result(res) == rsa_sha256_signing(n@, e@, d@, byte_seqs(primes@), message@),
        res matches Ok(s) ==> s@.len() == be_len(n@),
        rsa_key_valid(n@, e@, d@, byte_seqs(primes@)) ==> (res is Ok <==> be_len(n@)
            >= rsa_sha256_min_signature_len()),
        rsa_key_valid(n@, e@, d@, byte_seqs(primes@)) ==> (res matches Ok(s)
            ==> rsa_sha256_signature_accepted(n@, e@, message@, s@)),
{
    let primes = primes.iter().map(|p| BigUint::from_bytes_be(p)).collect();
    let n = BigUint::from_bytes_be(n);
    match RsaPrivateKey::from_components(n, BigUint::from_bytes_be(e), BigUint::from_bytes_be(d), primes) {
        Ok(key) => match SigningKey::<Sha256>::new(key).try_sign(message) {
            Ok(signature) => Ok(signature.to_vec()),
            Err(err) => Err(err.to_string()),
        },
        Err(err) => Err(err.to_string()),
    }
}

/// Builds the public key with `RsaPublicKey::new_unchecked` from the
/// components read as big-endian numbers, reads the signature with
/// `Signature::try_from` (which always succeeds) and checks it with
/// `VerifyingKey::<Sha256>::verify`; an error is reported with its message.
/// The result is named by `rsa_sha256_verification`; the source shows
/// besides that a signature
/// that is not exactly as long as the modulus, or a modulus shorter than
/// 62 bytes, is refused.
#[verifier::external_body]
fn rsa_verify_sha256(n: &[u8], e: &[u8], message: &[u8], signature: &[u8]) -> (res: Result<(), String>)
    ensures
        match res {
            Ok(()) => rsa_sha256_verification(n@, e@, message@, signature@) == Ok::<(), Seq<char>>(()),
            Err(m) => rsa_sha256_verification(n@, e@, message@, signature@) == Err::<(), Seq<char>>(m@),
        },
        res is Ok ==> signature@.len() == be_len(n@) && be_len(n@) >= rsa_sha256_min_signature_len(),
{
    let key = RsaPublicKey::new_unchecked(BigUint::from_bytes_be(n), BigUint::from_bytes_be(e));
    let checked = match Signature::try_from(signature) {
        Ok(signature) => VerifyingKey::<Sha256>::new(key).verify(message, &signature),
        Err(err) => Err(err),
    };
    match checked {
        Ok(()) => Ok(()),
        Err(err) => Err(err.to_string()),
    }
}

/// Builds the private key with `RsaPrivateKey::from_components` from the
/// components read as big-endian numbers, then calls `RsaPrivateKey::decrypt`
/// with PKCS#1 v1.5 padding; an error is reported with its message.  The
/// result is named by `rsa_pkcs1v15_decryption`; the source shows besides that a plaintext is at
/// least 11 bytes shorter than the modulus.  Two primes are required, as for
/// signing.
#[verifier::external_body]
fn rsa_decrypt_pkcs1v15(n: &[u8], e: &[u8], d: &[u8], primes: &Vec<Vec<u8>>, ciphertext: &[u8]) -> (res: Result<Vec<u8>, String>)
    requires
        primes@.len() >= 2,
    ensures
        bytes_result(res) == rsa_pkcs1v15_decryption(n@, e@, d@, byte_seqs(primes@), ciphertext@),
        res matches Ok(p) ==> p@.len() + 11 <= be_len(n@),
{
    let primes = primes.iter().map(|p| BigUint::from_bytes_be(p)).collect();
    let n = BigUint::from_bytes_be(n);
    let decrypted = match RsaPrivateKey::from_components(n, BigUint::from_bytes_be(e), BigUint::from_bytes_be(d), primes) {
        Ok(key) => key.decrypt(Pkcs1v15Encrypt, ciphertext),
        Err(err) => Err(err),
    };
    match decrypted {
        Ok(plaintext) => Ok(plaintext),
        Err(err) => Err(err.to_string()),
    }
}

/// Builds the public key with `RsaPublicKey::new_unchecked` from the
/// components read as big-endian numbers, then calls `RsaPublicKey::encrypt`
/// with PKCS#1 v1.5 padding and `rand::thread_rng()`.  The padding is random,
/// so the ciphertext gets no name; the contract states what holds of every
/// outcome, as the source shows it: the key is checked (`check_public`) and
/// the message must be at least 11 bytes shorter than the modulus, and then
/// the ciphertext is exactly as long as the modulus and every genuine private
/// key with this modulus and public exponent decrypts it to the message.  A
/// refusal is reported with its message: that of the key check, or
/// `message too long`.
#[verifier::external_body]
fn rsa_encrypt_pkcs1v15(n: &[u8], e: &[u8], plaintext: &[u8]) -> (res: Result<Vec<u8>, String>)
    ensures
        res is Ok <==> (public_key_accepted(n@, e@) && plaintext@.len() + 11 <= be_len(n@)),
        res matches Ok(c) ==> rsa_ciphertext_of(n@, e@, plaintext@, c@),
        res matches Err(m) ==> m@ == rsa_encryption_refusal(n@, e@),
{
    let key = RsaPublicKey::new_unchecked(BigUint::from_bytes_be(n), BigUint::from_bytes_be(e));
    match key.encrypt(&mut rand::thread_rng(), Pkcs1v15Encrypt, plaintext) {
        Ok(ciphertext) => Ok(ciphertext),
        Err(err) => Err(err.to_string()),
    }
}

} // verus!

verus! {

/// The shortest RSASSA-PKCS1-v1_5 SHA-256 signature: the 19-byte `DigestInfo`
/// prefix, the 32-byte digest and 11 bytes of padding.
pub open spec fn rsa_sha256_min_signature_len() -> nat {
    19 + 32 + 11
}

/// Whether `password` matches the Argon2 hash `phc` (PHC string format).
pub open spec fn password_matches(password: Seq<char>, phc: Seq<char>) -> bool {
    argon2_accepts(encode_utf8(password), phc)
}

/// The bytes whose standard base64 encoding is `text`, if there are any.
pub open spec fn base64_decode(text: Seq<char>) -> Option<Seq<u8>> {
    if exists|v: Seq<u8>| #[trigger] base64_encode(v) == text {
        Some(choose|v: Seq<u8>| #[trigger] base64_encode(v) == text)
    } else {
        None
    }
}

/// What percent decoding makes of a text: the decoded bytes as text when they
/// are valid UTF-8.
pub open spec fn url_decode_text(text: Seq<char>) -> Option<Seq<char>> {
    let bytes = percent_decode(encode_utf8(text));
    if valid_utf8(bytes) {
        Some(decode_utf8(bytes))
    } else {
        None
    }
}

/// What a UTF-8 check makes of bytes.
pub open spec fn utf8_text(bytes: Seq<u8>) -> Result<Seq<char>, Seq<char>> {
    if valid_utf8(bytes) {
        Ok(decode_utf8(bytes))
    } else {
        Err(utf8_error_text(bytes))
    }
}

/// Base64 decoding undoes base64 encoding.
pub proof fn law_base64_round_trip(bytes: Seq<u8>)
    ensures
        base64_decode(base64_encode(bytes)) == Some(bytes),
{
    let text = base64_encode(bytes);
    assert(exists|v: Seq<u8>| #[trigger] base64_encode(v) == text);
    let v = choose|v: Seq<u8>| #[trigger] base64_encode(v) == text;
    lemma_base64_encode_injective(v, bytes);
}

/// Percent decoding undoes percent encoding, for every text.
pub proof fn law_url_round_trip(text: Seq<char>)
    ensures
        url_decode_text(percent_encode(encode_utf8(text))) == Some(text),
{
    broadcast use vstd::utf8::group_utf8_lib;

    let bytes = encode_utf8(text);
    let encoded = percent_encode(bytes);
    crate::codec::lemma_percent_encode_ascii(bytes);
    vstd::utf8::is_ascii_chars_encode_utf8(encoded);
    assert(encode_utf8(encoded) =~= crate::codec::ascii_bytes(encoded));
    crate::codec::lemma_percent_decode_encode(bytes);
}

/// Checks that bytes are UTF-8 and returns them as text.
pub fn bytes_to_utf8(bytes: Vec<u8>) -> (res: Result<String, UtilError>)
    ensures
        match res {
            Ok(s) => utf8_text(bytes@) == Ok::<Seq<char>, Seq<char>>(s@),
            Err(e) => e matches UtilError::InvalidUtf8(m) && utf8_text(bytes@) == Err::<
                Seq<char>,
                Seq<char>,
            >(m@),
        },
{
    match string_from_utf8(bytes) {
        Ok(s) => Ok(s),
        Err(m) => Err(UtilError::InvalidUtf8(m)),
    }
}

/// Hashes a password with Argon2id, the default parameters and a fresh
/// random salt, and returns the PHC string.  `verify_password` accepts the
/// same password against it.
pub fn hash_password(password: &str) -> (res: String)
    requires
        password.spec_bytes().len() <= u32::MAX,
    ensures
        password_matches(password@, res@),
        res@.len() >= argon2_default_phc_prefix().len(),
        res@.take(argon2_default_phc_prefix().len() as int) == argon2_default_phc_prefix(),
{
    argon2_hash(password)
}

/// Whether the password matches the Argon2 hash; a hash string that does not
/// parse matches nothing, and one that does not begin with `$` does not
/// parse.
pub fn verify_password(password: &str, password_hash: &str) -> (res: bool)
    ensures
        res == password_matches(password@, password_hash@),
        (password_hash@.len() == 0 || password_hash@[0] != '$') ==> !res,
{
    argon2_verify(password, password_hash)
}

/// The signature of a message under a private key, or the message of the
/// refusal.
pub open spec fn private_key_signature(key: RsaPrivateParts, message: Seq<u8>) -> Result<Seq<u8>, Seq<char>> {
    rsa_sha256_signing(key.spec_n(), key.spec_e(), key.spec_d(), key.spec_primes(), message)
}

/// The decryption of a ciphertext under a private key, or the message of the
/// refusal.
pub open spec fn private_key_decryption(key: RsaPrivateParts, ciphertext: Seq<u8>) -> Result<Seq<u8>, Seq<char>> {
    rsa_pkcs1v15_decryption(key.spec_n(), key.spec_e(), key.spec_d(), key.spec_primes(), ciphertext)
}

/// Whether a public key encrypts a message of the length: the key is usable
/// and the message is at least 11 bytes shorter than the modulus.
pub open spec fn encryption_accepted(key: RsaPublicParts, message_len: nat) -> bool {
    public_key_accepted(key.n@, key.e@) && message_len + 11 <= be_len(key.n@)
}

/// Signs a message with RSASSA-PKCS1-v1_5 and SHA-256.  With a genuine key,
/// this fails only when the modulus is shorter than 62 bytes.
pub fn sign_rsa(priv_key: &RsaPrivateParts, plaintext: &[u8]) -> (res: Result<Vec<u8>, UtilError>)
    ensures
        match private_key_signature(*priv_key, plaintext@) {
            Ok(s) => res matches Ok(v) && v@ == s,
            Err(m) => res matches Err(UtilError::SigningFailed(t)) && t@ == m,
        },
        res matches Ok(v) ==> v@.len() == be_len(priv_key.spec_n()),
        priv_key.spec_valid() ==> (res is Ok <==> be_len(priv_key.spec_n())
            >= rsa_sha256_min_signature_len()),
        priv_key.spec_valid() ==> (res matches Ok(v) ==> rsa_sha256_signature_accepted(
            priv_key.spec_n(),
            priv_key.spec_e(),
            plaintext@,
            v@,
        )),
{
    let primes = priv_key.primes();
    match rsa_sign_sha256(
        priv_key.n().as_slice(),
        priv_key.e().as_slice(),
        priv_key.d().as_slice(),
        primes,
        plaintext,
    ) {
        Ok(signature) => Ok(signature),
        Err(m) => Err(UtilError::SigningFailed(m)),
    }
}

/// Checks an RSASSA-PKCS1-v1_5 SHA-256 signature of a text.
pub fn verify_rsa(pub_key: &RsaPublicParts, msg: &str, signature: &[u8]) -> (res: Result<(), UtilError>)
    ensures
        match rsa_sha256_verification(pub_key.n@, pub_key.e@, msg.spec_bytes(), signature@) {
            Ok(()) => res is Ok,
            Err(m) => res matches Err(UtilError::InvalidSignature(t)) && t@ == m,
        },
        res is Ok ==> signature@.len() == be_len(pub_key.n@) && be_len(pub_key.n@)
            >= rsa_sha256_min_signature_len(),
{
    match rsa_verify_sha256(pub_key.n.as_slice(), pub_key.e.as_slice(), msg.as_bytes(), signature) {
        Ok(()) => Ok(()),
        Err(m) => Err(UtilError::InvalidSignature(m)),
    }
}

/// Decrypts an RSA PKCS#1 v1.5 ciphertext.
pub fn decrypt_rsa(priv_key: &RsaPrivateParts, ciphertext: &[u8]) -> (res: Result<Vec<u8>, UtilError>)
    ensures
        match private_key_decryption(*priv_key, ciphertext@) {
            Ok(p) => res matches Ok(v) && v@ == p,
            Err(m) => res matches Err(UtilError::DecryptionFailed(t)) && t@ == m,
        },
        res matches Ok(v) ==> v@.len() + 11 <= be_len(priv_key.spec_n()),
{
    let primes = priv_key.primes();
    match rsa_decrypt_pkcs1v15(
        priv_key.n().as_slice(),
        priv_key.e().as_slice(),
        priv_key.d().as_slice(),
        primes,
        ciphertext,
    ) {
        Ok(plaintext) => Ok(plaintext),
        Err(m) => Err(UtilError::DecryptionFailed(m)),
    }
}

/// What a ciphertext decrypts to as text under a private key, or the message
/// of the refusal: that of the decryption, or that of the UTF-8 check.
pub open spec fn private_key_decrypted_text(key: RsaPrivateParts, ciphertext: Seq<u8>) -> Result<Seq<char>, Seq<char>> {
    match private_key_decryption(key, ciphertext) {
        Err(m) => Err(m),
        Ok(p) => utf8_text(p),
    }
}

/// Decrypts an RSA PKCS#1 v1.5 ciphertext whose plaintext is UTF-8 text.
pub fn decrypt_rsa_to_utf8(priv_key: &RsaPrivateParts, ciphertext: &[u8]) -> (res: Result<String, UtilError>)
    ensures
        match private_key_decrypted_text(*priv_key, ciphertext@) {
            Ok(t) => res matches Ok(s) && s@ == t,
            Err(m) => res matches Err(e) && e.spec_text() == m && (e is DecryptionFailed
                || e is InvalidUtf8),
        },
        private_key_decryption(*priv_key, ciphertext@) is Err ==> res matches Err(
            UtilError::DecryptionFailed(_),
        ),
{
    let plaintext = match decrypt_rsa(priv_key, ciphertext) {
        Ok(p) => p,
        Err(e) => return Err(e),
    };
    bytes_to_utf8(plaintext)
}

/// Encrypts a message with RSA PKCS#1 v1.5 and random padding.  It fails
/// exactly when the key is unusable or the message is not at least 11 bytes
/// shorter than the modulus; the ciphertext decrypts to the message under
/// every genuine private key that matches the public key.
pub fn encrypt_rsa(pub_key: &RsaPublicParts, plaintext: &[u8]) -> (res: Result<Vec<u8>, UtilError>)
    ensures
        res is Ok <==> encryption_accepted(*pub_key, plaintext@.len()),
        res matches Err(e) ==> e matches UtilError::EncryptionFailed(m) && m@
            == rsa_encryption_refusal(pub_key.n@, pub_key.e@),
        res matches Ok(c) ==> rsa_ciphertext_of(pub_key.n@, pub_key.e@, plaintext@, c@),
{
    match rsa_encrypt_pkcs1v15(pub_key.n.as_slice(), pub_key.e.as_slice(), plaintext) {
        Ok(ciphertext) => Ok(ciphertext),
        Err(m) => Err(UtilError::EncryptionFailed(m)),
    }
}

/// Encrypts a message with RSA PKCS#1 v1.5 and reads the ciphertext as
/// UTF-8 text.
pub fn encrypt_rsa_to_utf8(pub_key: &RsaPublicParts, plaintext: &[u8]) -> (res: Result<String, UtilError>)
    ensures
        !encryption_accepted(*pub_key, plaintext@.len()) ==> (res matches Err(
            UtilError::EncryptionFailed(m),
        ) && m@ == rsa_encryption_refusal(pub_key.n@, pub_key.e@)),
        encryption_accepted(*pub_key, plaintext@.len()) ==> exists|c: Seq<u8>|
            #[trigger] rsa_ciphertext_of(pub_key.n@, pub_key.e@, plaintext@, c) && match res {
                Ok(s) => utf8_text(c) == Ok::<Seq<char>, Seq<char>>(s@),
                Err(e) => e matches UtilError::InvalidUtf8(m) && utf8_text(c) == Err::<
                    Seq<char>,
                    Seq<char>,
                >(m@),
            },
{
    let ciphertext = match encrypt_rsa(pub_key, plaintext) {
        Ok(c) => c,
        Err(e) => return Err(e),
    };
    let ghost c = ciphertext@;
    let res = bytes_to_utf8(ciphertext);
    assert(rsa_ciphertext_of(pub_key.n@, pub_key.e@, plaintext@, c));
    res
}

/// Decodes standard padded base64.
pub fn decode_base64(base64_str: &str) -> (res: Result<Vec<u8>, UtilError>)
    ensures
        match res {
            Ok(v) => base64_decode(base64_str@) == Some(v@),
            Err(e) => base64_decode(base64_str@) is None && (e matches UtilError::InvalidBase64(m)
                && m@ == base64_error_text(base64_str@)),
        },
{
    match base64_standard_decode(base64_str) {
        Ok(v) => {
            proof {
                law_base64_round_trip(v@);
            }
            Ok(v)
        },
        Err(m) => Err(UtilError::InvalidBase64(m)),
    }
}

/// Decodes standard padded base64 whose bytes are UTF-8 text.
pub fn decode_base64_to_utf8(base64_str: &str) -> (res: Result<String, UtilError>)
    ensures
        match base64_decode(base64_str@) {
            None => res matches Err(UtilError::InvalidBase64(m)) && m@ == base64_error_text(
                base64_str@,
            ),
            Some(bytes) => match res {
                Ok(s) => utf8_text(bytes) == Ok::<Seq<char>, Seq<char>>(s@),
                Err(e) => e matches UtilError::InvalidUtf8(m) && utf8_text(bytes) == Err::<
                    Seq<char>,
                    Seq<char>,
                >(m@),
            },
        },
{
    let decoded = match decode_base64(base64_str) {
        Ok(v) => v,
        Err(e) => return Err(e),
    };
    bytes_to_utf8(decoded)
}

/// Encodes bytes as standard padded base64.
pub fn encode_base64(input: &[u8]) -> (res: String)
    ensures
        res@ == base64_encode(input@),
        base64_decode(res@) == Some(input@),
{
    proof {
        law_base64_round_trip(input@);
    }
    base64_standard_encode(input)
}

/// Percent-decodes a text (leniently: a `%` without two hexadecimal digits
/// stays) and checks that the result is UTF-8.
pub fn decode_url(input: &str) -> (res: Result<String, UtilError>)
    ensures
        match res {
            Ok(s) => url_decode_text(input@) == Some(s@),
            Err(e) => url_decode_text(input@) is None && (e matches UtilError::InvalidUtf8(m) && m@
                == utf8_error_text(percent_decode(encode_utf8(input@)))),
        },
{
    match url_decode(input) {
        Ok(s) => Ok(s),
        Err(m) => Err(UtilError::InvalidUtf8(m)),
    }
}

/// Percent-encodes the UTF-8 bytes of a text, keeping ASCII letters, digits
/// and `-`, `.`, `_`, `~`.
pub fn encode_url(input: &str) -> (res: String)
    ensures
        res@ == percent_encode(encode_utf8(input@)),
        url_decode_text(res@) == Some(input@),
{
    proof {
        law_url_round_trip(input@);
    }
    url_encode(input)
}

/// The BLAKE3 digest of the input as 64 lower-case hexadecimal digits.
pub fn hash_blake3(input: &[u8]) -> (res: String)
    ensures
        res@ == lower_hex(blake3_digest(input@)),
{
    let digest = blake3_hash(input);
    to_hex_lower(digest.as_slice())
}

/// The MD5 digest of the input as 32 lower-case hexadecimal digits.
pub fn hash_md5(input: &[u8]) -> (res: String)
    ensures
        res@ == lower_hex(md5_digest(input@)),
{
    let digest = md5_compute(input);
    to_hex_lower(digest.as_slice())
}

/// An MD5 digest computed over data that arrives in pieces, such as the
/// blocks of a file.  Besides the MD5 context it records, as ghost state, the
/// bytes fed so far; only `md5_stream_start`, `md5_stream_feed` and
/// `md5_stream_digest` touch the context, and no code writes the record.
pub struct Md5Stream {
    context: md5::Context,
    fed: Ghost<Seq<u8>>,
}

impl View for Md5Stream {
    type V = Seq<u8>;

    /// The bytes fed so far.
    closed spec fn view(&self) -> Seq<u8> {
        self.fed@
    }
}

impl Md5Stream {
    /// A stream that has been fed nothing.
    pub fn new() -> (res: Md5Stream)
        ensures
            res@ == Seq::<u8>::empty(),
    {
        md5_stream_start()
    }

    /// Feeds the next piece of data.
    pub fn update(&mut self, data: &[u8])
        ensures
            final(self)@ == old(self)@ + data@,
    {
        md5_stream_feed(self, data)
    }

    /// The digest of everything fed, as 32 lower-case hexadecimal digits: the
    /// same text that `hash_md5` gives for those bytes at once.
    pub fn finish_hex(self) -> (res: String)
        ensures
            res@ == lower_hex(md5_digest(self@)),
    {
        let digest = md5_stream_digest(self);
        to_hex_lower(digest.as_slice())
    }
}

} // verus!

verus! {

/// All the pieces, one after another.
pub open spec fn concat_pieces(pieces: Seq<Vec<u8>>) -> Seq<u8>
    decreases pieces.len(),
{
    if pieces.len() == 0 {
        Seq::empty()
    } else {
        concat_pieces(pieces.drop_last()) + pieces.last()@
    }
}

/// The MD5 digest of data that arrives in pieces, as 32 lower-case
/// hexadecimal digits: the same text as `hash_md5` of all the pieces at once.
pub fn hash_md5_pieces(pieces: &Vec<Vec<u8>>) -> (res: String)
    ensures
        res@ == lower_hex(md5_digest(concat_pieces(pieces@))),
{
    let mut stream = Md5Stream::new();
    let mut i: usize = 0;
    while i < pieces.len()
        invariant
            i <= pieces@.len(),
            stream@ == concat_pieces(pieces@.take(i as int)),
        decreases pieces@.len() - i,
    {
        assert(pieces@.take(i + 1).drop_last() =~= pieces@.take(i as int));
        stream.update(pieces[i].as_slice());
        i = i + 1;
    }
    assert(pieces@.take(i as int) =~= pieces@);
    stream.finish_hex()
}

impl UtilError {
    /// The message of the failure.
    pub open spec fn spec_text(self) -> Seq<char> {
        match self {
            UtilError::InvalidBase64(m) => m@,
            UtilError::InvalidUtf8(m) => m@,
            UtilError::SigningFailed(m) => m@,
            UtilError::InvalidSignature(m) => m@,
            UtilError::DecryptionFailed(m) => m@,
            UtilError::EncryptionFailed(m) => m@,
        }
    }

    /// The message of the failure.
    pub fn to_text(&self) -> (res: String)
        ensures
            res@ == self.spec_text(),
    {
        match self {
            UtilError::InvalidBase64(m) => m.clone(),
            UtilError::InvalidUtf8(m) => m.clone(),
            UtilError::SigningFailed(m) => m.clone(),
            UtilError::InvalidSignature(m) => m.clone(),
            UtilError::DecryptionFailed(m) => m.clone(),
            UtilError::EncryptionFailed(m) => m.clone(),
        }
    }
}

} // verus!
