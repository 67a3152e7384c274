//! What handlers take from a request besides its body: the application's
//! services and the server's RSA key pair.

use vstd::prelude::*;

use vstd::string::StringSliceAdditionalSpecFns;

use crate::codec::base64_encode;
use crate::error::ServerError;
use crate::keys::{be_len, RsaPrivateParts, RsaPublicParts};
use crate::utils::{
    base64_decode, base64_error_text, decode_base64, decrypt_rsa_to_utf8, encode_base64,
    encrypt_rsa, encryption_accepted, private_key_decrypted_text, private_key_signature,
    rsa_ciphertext_of, rsa_encryption_refusal, rsa_sha256_min_signature_len,
    rsa_sha256_verification, sign_rsa, verify_rsa, UtilError,
};

verus! {

/// A service of the application, handed to a handler.
#[derive(Debug)]
pub struct AppService<T>(pub T);

impl<T> AppService<T> {
    /// Wraps a service.
    pub fn new(service: T) -> (res: AppService<T>)
        ensures
            res.0 == service,
    {
        AppService(service)
    }

    /// The service.
    pub fn service(&self) -> (res: &T)
        ensures
            *res == self.0,
    {
        &self.0
    }
}


/// Reports a failed encoding or cryptographic step as a handler error.
pub fn server_error_from(e: UtilError) -> (res: ServerError)
    ensures
        res matches ServerError::Anyhow(m) && m@ == e.spec_text(),
{
    ServerError::Anyhow(e.to_text())
}

/// The server's RSA key pair, with which clients encrypt passwords.
#[derive(Debug)]
pub struct Helper {
    private_key: RsaPrivateParts,
    public_key: RsaPublicParts,
}

/// What a base64-encoded ciphertext decrypts to under a private key: refused,
/// with the message of the step that refused, when it is not base64, does
/// not decrypt, or does not decrypt to UTF-8.
pub open spec fn decrypted_text(key: RsaPrivateParts, ciphertext_base64: Seq<char>) -> Result<Seq<char>, Seq<char>> {
    match base64_decode(ciphertext_base64) {
        None => Err(base64_error_text(ciphertext_base64)),
        Some(c) => private_key_decrypted_text(key, c),
    }
}

impl Helper {
    /// The private key of the pair.
    pub closed spec fn spec_private_key(&self) -> RsaPrivateParts {
        self.private_key
    }

    /// The public key of the pair.
    pub closed spec fn spec_public_key(&self) -> RsaPublicParts {
        self.public_key
    }

    /// What a base64-encoded ciphertext decrypts to under the private key.
    pub open spec fn spec_decrypt(&self, ciphertext_base64: Seq<char>) -> Result<Seq<char>, Seq<char>> {
        decrypted_text(self.spec_private_key(), ciphertext_base64)
    }

    /// A helper with the key pair.
    pub fn new(private_key: RsaPrivateParts, public_key: RsaPublicParts) -> (res: Helper)
        ensures
            res.spec_private_key() == private_key,
            res.spec_public_key() == public_key,
    {
        Helper { private_key, public_key }
    }

    /// Signs the text with the private key and encodes the signature as
    /// base64.
    pub fn sign_rsa(&self, plaintext: &str) -> (res: Result<String, ServerError>)
        ensures
            match private_key_signature(self.spec_private_key(), plaintext.spec_bytes()) {
                Ok(sig) => res matches Ok(s) && s@ == base64_encode(sig),
                Err(m) => res matches Err(ServerError::Anyhow(t)) && t@ == m,
            },
            self.spec_private_key().spec_valid() ==> (res is Ok <==> be_len(
                self.spec_private_key().spec_n(),
            ) >= rsa_sha256_min_signature_len()),
    {
        match sign_rsa(&self.private_key, plaintext.as_bytes()) {
            Ok(signature) => Ok(encode_base64(signature.as_slice())),
            Err(e) => Err(server_error_from(e)),
        }
    }

    /// Checks a base64-encoded signature of the text against the public key;
    /// a signature that is not base64 is refused before any check.
    pub fn verify_rsa(&self, msg: &str, signature: &str) -> (res: Result<(), ServerError>)
        ensures
            match base64_decode(signature@) {
                None => res matches Err(ServerError::Anyhow(m)) && m@ == base64_error_text(
                    signature@,
                ),
                Some(sig) => match rsa_sha256_verification(
                    self.spec_public_key().n@,
                    self.spec_public_key().e@,
                    msg.spec_bytes(),
                    sig,
                ) {
                    Ok(()) => res is Ok,
                    Err(m) => res matches Err(ServerError::Anyhow(t)) && t@ == m,
                },
            },
    {
        let signature = match decode_base64(signature) {
            Ok(s) => s,
            Err(e) => return Err(server_error_from(e)),
        };
        match verify_rsa(&self.public_key, msg, signature.as_slice()) {
            Ok(()) => Ok(()),
            Err(e) => Err(server_error_from(e)),
        }
    }

    /// Decrypts a base64-encoded ciphertext with the private key into text;
    /// a ciphertext that is not base64 is refused before any decryption.
    pub fn decrypt_rsa(&self, ciphertext_base64: &str) -> (res: Result<String, ServerError>)
        ensures
            match self.spec_decrypt(ciphertext_base64@) {
                Ok(t) => res matches Ok(s) && s@ == t,
                Err(m) => res matches Err(ServerError::Anyhow(t)) && t@ == m,
            },
    {
        let ciphertext = match decode_base64(ciphertext_base64) {
            Ok(c) => c,
            Err(e) => return Err(server_error_from(e)),
        };
        match decrypt_rsa_to_utf8(&self.private_key, ciphertext.as_slice()) {
            Ok(text) => Ok(text),
            Err(e) => Err(server_error_from(e)),
        }
    }

    /// Encrypts the text with the public key and encodes the ciphertext as
    /// base64.  It fails exactly when the key is unusable or the text is not
    /// at least 11 bytes shorter than the modulus.
    pub fn encrypt_rsa(&self, plaintext: &str) -> (res: Result<String, ServerError>)
        ensures
            res is Ok <==> encryption_accepted(self.spec_public_key(), plaintext.spec_bytes().len()),
            res matches Ok(s) ==> exists|c: Seq<u8>|
                base64_encode(c) == s@ && #[trigger] rsa_ciphertext_of(
                    self.spec_public_key().n@,
                    self.spec_public_key().e@,
                    plaintext.spec_bytes(),
                    c,
                ),
            res matches Err(e) ==> e matches ServerError::Anyhow(m) && m@ == rsa_encryption_refusal(
                self.spec_public_key().n@,
                self.spec_public_key().e@,
            ),
    {
        match encrypt_rsa(&self.public_key, plaintext.as_bytes()) {
            Ok(ciphertext) => {
                let text = encode_base64(ciphertext.as_slice());
                assert(rsa_ciphertext_of(
                    self.public_key.n@,
                    self.public_key.e@,
                    plaintext.spec_bytes(),
                    ciphertext@,
                ));
                Ok(text)
            },
            Err(e) => Err(server_error_from(e)),
        }
    }
}

} // verus!

verus! {

/// Decryption undoes encryption: a ciphertext that the helper's public key
/// made of a text decrypts, once base64-encoded, back to that text under the
/// helper's private key, when that key is a genuine RSA key with the same
/// modulus and public exponent.
pub proof fn law_rsa_round_trip(helper: Helper, text: Seq<char>, ciphertext: Seq<u8>)
    requires
        helper.spec_private_key().spec_valid(),
        helper.spec_private_key().spec_n() == helper.spec_public_key().n@,
        helper.spec_private_key().spec_e() == helper.spec_public_key().e@,
        rsa_ciphertext_of(
            helper.spec_public_key().n@,
            helper.spec_public_key().e@,
            vstd::utf8::encode_utf8(text),
            ciphertext,
        ),
    ensures
        helper.spec_decrypt(base64_encode(ciphertext)) == Ok::<Seq<char>, Seq<char>>(text),
{
    let key = helper.spec_private_key();
    crate::utils::law_base64_round_trip(ciphertext);
    assert(crate::utils::rsa_pkcs1v15_decryption(
        key.spec_n(),
        key.spec_e(),
        key.spec_d(),
        key.spec_primes(),
        ciphertext,
    ) == Ok::<Seq<u8>, Seq<char>>(vstd::utf8::encode_utf8(text)));
    vstd::utf8::encode_utf8_valid_utf8(text);
    vstd::utf8::encode_utf8_decode_utf8(text);
}

} // verus!
