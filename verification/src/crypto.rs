//! Keys and signatures of account holders.
//!
//! Every account has an Ed25519 key pair. The private key is kept sealed
//! under a master key derived from a password, with the owner's identifier as
//! associated data, and every text that leaves this module is base64.
//!
//! The ciphers themselves are `ring`'s and the text encoding is `base64`'s.
//! What they compute is not spelled out here: each result has a name, and the
//! contracts say which results are combined, and how.

use vstd::prelude::*;
use vstd::utf8::{decode_utf8, encode_utf8, valid_utf8};

verus! {

/// `ring::error::Unspecified`: an error of `ring` that says nothing more.
#[verifier::external_type_specification]
#[verifier::external_body]
pub struct ExUnspecified(ring::error::Unspecified);

/// `ring::error::KeyRejected`: why `ring` turned a key down.
#[verifier::external_type_specification]
#[verifier::external_body]
pub struct ExKeyRejected(ring::error::KeyRejected);

/// `base64::DecodeError`: where a text stops being base64.
#[verifier::external_type_specification]
#[verifier::external_body]
pub struct ExDecodeError(base64::DecodeError);

/// `std::string::FromUtf8Error`: where bytes stop being UTF-8.
#[verifier::external_type_specification]
#[verifier::external_body]
pub struct ExFromUtf8Error(std::string::FromUtf8Error);

/// The standard base64 text of `bytes`, with padding.
pub uninterp spec fn base64_text(bytes: Seq<u8>) -> Seq<char>;

/// The bytes that `text` stands for in standard base64, if it is base64.
pub uninterp spec fn base64_bytes(text: Seq<char>) -> Option<Seq<u8>>;

/// What AES-256-GCM makes of `plaintext` under `key`, `nonce` and `aad`: the
/// ciphertext followed by the tag, if the inputs are acceptable.
pub uninterp spec fn aes_256_gcm_sealed(
    key: Seq<u8>,
    nonce: Seq<u8>,
    aad: Seq<u8>,
    plaintext: Seq<u8>,
) -> Option<Seq<u8>>;

/// What AES-256-GCM recovers from `sealed` under `key`, `nonce` and `aad`, if
/// the tag is right.
pub uninterp spec fn aes_256_gcm_opened(
    key: Seq<u8>,
    nonce: Seq<u8>,
    aad: Seq<u8>,
    sealed: Seq<u8>,
) -> Option<Seq<u8>>;

/// The public key in the PKCS#8 document `pkcs8`, if the document holds a
/// consistent Ed25519 key pair.
pub uninterp spec fn ed25519_public_key_of(pkcs8: Seq<u8>) -> Option<Seq<u8>>;

/// The Ed25519 signature of `message` under the key pair of `pkcs8`, if the
/// document holds a consistent key pair.
pub uninterp spec fn ed25519_signature(pkcs8: Seq<u8>, message: Seq<u8>) -> Option<Seq<u8>>;

/// Whether `signature` is the Ed25519 signature of `message` under
/// `public_key`.
pub uninterp spec fn ed25519_accepts(public_key: Seq<u8>, message: Seq<u8>, signature: Seq<u8>) -> bool;

/// `base64::engine::general_purpose::STANDARD.encode`.
///
/// Trusted: the text returned is given the name [`base64_text`]; the encoder
/// looks at nothing but the bytes. It gives up only where the text would not
/// fit the address space, which the encoding of no slice does.
#[verifier::external_body]
fn base64_encode(bytes: &[u8]) -> (text: String)
    ensures
        text@ == base64_text(bytes@),
{
    base64::Engine::encode(&base64::engine::general_purpose::STANDARD, bytes)
}

/// `base64::engine::general_purpose::STANDARD.decode`.
///
/// Trusted: the bytes returned, or their absence when the decoder reports an
/// error, are given the name [`base64_bytes`]; the decoder looks at nothing
/// but the text.
#[verifier::external_body]
fn base64_decode(text: &str) -> (bytes: Result<Vec<u8>, base64::DecodeError>)
    ensures
        match bytes {
            Ok(bytes) => base64_bytes(text@) == Some(bytes@),
            Err(_) => base64_bytes(text@) is None,
        },
{
    base64::Engine::decode(&base64::engine::general_purpose::STANDARD, text)
}

/// `ring::aead::UnboundKey::new` for `AES_256_GCM`, the key dropped again.
///
/// Trusted: `ring` documents that the call fails for a key of any length but
/// the algorithm's, which is 32 bytes. That it succeeds for every key of 32
/// bytes is not claimed.
#[verifier::external_body]
fn aes_256_gcm_check_key(key: &[u8]) -> (checked: Result<(), ring::error::Unspecified>)
    ensures
        checked is Ok ==> key@.len() == 32,
{
    match ring::aead::UnboundKey::new(&ring::aead::AES_256_GCM, key) {
        Ok(_) => Ok(()),
        Err(e) => Err(e),
    }
}

/// `ring::aead::LessSafeKey::seal_in_place_append_tag` on a copy of
/// `plaintext`, with an AES-256-GCM key made of `key`.
///
/// Trusted: the bytes returned, or their absence when `ring` reports an
/// error, are given the name [`aes_256_gcm_sealed`]; sealing has no input
/// but the four that are passed.
#[verifier::external_body]
fn aes_256_gcm_seal(key: &[u8], nonce: &[u8; 12], aad: &[u8], plaintext: &[u8]) -> (sealed: Result<
    Vec<u8>,
    ring::error::Unspecified,
>)
    ensures
        match sealed {
            Ok(sealed) => aes_256_gcm_sealed(key@, nonce@, aad@, plaintext@) == Some(sealed@),
            Err(_) => aes_256_gcm_sealed(key@, nonce@, aad@, plaintext@) is None,
        },
{
    let key = ring::aead::LessSafeKey::new(ring::aead::UnboundKey::new(&ring::aead::AES_256_GCM, key)?);
    let mut data = plaintext.to_vec();
    let nonce = ring::aead::Nonce::assume_unique_for_key(*nonce);
    key.seal_in_place_append_tag(nonce, ring::aead::Aad::from(aad), &mut data)?;
    Ok(data)
}

/// `ring::aead::LessSafeKey::open_in_place` on a copy of `sealed`, with an
/// AES-256-GCM key made of `key`.
///
/// Trusted: the bytes returned, or their absence when `ring` reports an
/// error, are given the name [`aes_256_gcm_opened`]; opening has no input
/// but the four that are passed.
#[verifier::external_body]
fn aes_256_gcm_open(key: &[u8], nonce: &[u8; 12], aad: &[u8], sealed: &[u8]) -> (opened: Result<
    Vec<u8>,
    ring::error::Unspecified,
>)
    ensures
        match opened {
            Ok(opened) => aes_256_gcm_opened(key@, nonce@, aad@, sealed@) == Some(opened@),
            Err(_) => aes_256_gcm_opened(key@, nonce@, aad@, sealed@) is None,
        },
{
    let key = ring::aead::LessSafeKey::new(ring::aead::UnboundKey::new(&ring::aead::AES_256_GCM, key)?);
    let mut data = sealed.to_vec();
    let nonce = ring::aead::Nonce::assume_unique_for_key(*nonce);
    let plain = key.open_in_place(nonce, ring::aead::Aad::from(aad), &mut data)?;
    Ok(plain.to_vec())
}

/// `ring::signature::Ed25519KeyPair::generate_pkcs8` with the system's random
/// number generator.
///
/// Trusted, and nothing is claimed: the key pair is drawn at random.
#[verifier::external_body]
fn ed25519_generate_pkcs8() -> (pkcs8: Result<Vec<u8>, ring::error::Unspecified>) {
    let rng = ring::rand::SystemRandom::new();
    let document = ring::signature::Ed25519KeyPair::generate_pkcs8(&rng)?;
    Ok(document.as_ref().to_vec())
}

/// `ring::signature::Ed25519KeyPair::from_pkcs8`, then the public key of the
/// pair.
///
/// Trusted: the key returned, or its absence when `ring` rejects the
/// document, is given the name [`ed25519_public_key_of`]; parsing looks at
/// nothing but the document.
#[verifier::external_body]
fn ed25519_public_key(pkcs8: &[u8]) -> (public_key: Result<Vec<u8>, ring::error::KeyRejected>)
    ensures
        match public_key {
            Ok(public_key) => ed25519_public_key_of(pkcs8@) == Some(public_key@),
            Err(_) => ed25519_public_key_of(pkcs8@) is None,
        },
{
    let pair = ring::signature::Ed25519KeyPair::from_pkcs8(pkcs8)?;
    Ok(ring::signature::KeyPair::public_key(&pair).as_ref().to_vec())
}

/// `ring::signature::Ed25519KeyPair::from_pkcs8`, then `sign`.
///
/// Trusted: the signature returned, or its absence when `ring` rejects the
/// document, is given the name [`ed25519_signature`]; Ed25519 signs without
/// randomness.
#[verifier::external_body]
fn ed25519_sign(pkcs8: &[u8], message: &[u8]) -> (signature: Result<Vec<u8>, ring::error::KeyRejected>)
    ensures
        match signature {
            Ok(signature) => ed25519_signature(pkcs8@, message@) == Some(signature@),
            Err(_) => ed25519_signature(pkcs8@, message@) is None,
        },
{
    let pair = ring::signature::Ed25519KeyPair::from_pkcs8(pkcs8)?;
    Ok(pair.sign(message).as_ref().to_vec())
}

/// `ring::signature::UnparsedPublicKey::verify` for `ED25519`.
///
/// Trusted: whether `ring` accepts the signature is given the name
/// [`ed25519_accepts`]; verification looks at nothing but the three inputs.
#[verifier::external_body]
fn ed25519_verify(public_key: &[u8], message: &[u8], signature: &[u8]) -> (accepted: bool)
    ensures
        accepted == ed25519_accepts(public_key@, message@, signature@),
{
    let key = ring::signature::UnparsedPublicKey::new(&ring::signature::ED25519, public_key);
    key.verify(message, signature).is_ok()
}

/// `String::from_utf8`.
///
/// Trusted: the standard library documents that the call succeeds exactly on
/// well-formed UTF-8 and then returns the text that the bytes encode.
#[verifier::external_body]
fn utf8_text(bytes: Vec<u8>) -> (text: Result<String, std::string::FromUtf8Error>)
    ensures
        match text {
            Ok(text) => valid_utf8(bytes@) && text@ == decode_utf8(bytes@),
            Err(_) => !valid_utf8(bytes@),
        },
{
    String::from_utf8(bytes)
}

/// What went wrong with a key or a signature.
#[derive(Debug)]
pub enum CryptoError {
    KeyGeneration,
    Encryption,
    Decryption,
    Signing,
    InvalidKey,
    Base64Error(base64::DecodeError),
    Utf8Error(std::string::FromUtf8Error),
}

/// Number of bytes in a master key.
pub const MASTER_KEY_LEN: usize = 32;

/// The master key that `password` stands for: its bytes, repeated until the
/// key is full. An empty password stands for a key of zeros.
pub open spec fn derived_key(password: Seq<u8>) -> Seq<u8> {
    Seq::new(
        MASTER_KEY_LEN as nat,
        |i: int|
            if password.len() > 0 {
                password[i % (password.len() as int)]
            } else {
                0u8
            },
    )
}

/// The nonce under which private keys are sealed: twelve zero bytes.
pub open spec fn sealing_nonce() -> Seq<u8> {
    Seq::new(12, |i: int| 0u8)
}

/// The sealed and encoded form of `private_key`, as kept for the user
/// `user_id`, if sealing succeeds.
pub open spec fn sealed_text(key: Seq<u8>, private_key: Seq<char>, user_id: Seq<char>) -> Option<
    Seq<char>,
> {
    match aes_256_gcm_sealed(key, sealing_nonce(), encode_utf8(user_id), encode_utf8(private_key)) {
        Some(sealed) => Some(base64_text(sealed)),
        None => None,
    }
}

/// The public key of `pkcs8` and the document itself, as the texts under
/// which an account keeps them.
pub open spec fn keypair_texts(pkcs8: Seq<u8>) -> Option<(Seq<char>, Seq<char>)> {
    match ed25519_public_key_of(pkcs8) {
        Some(public_key) => Some((base64_text(public_key), base64_text(pkcs8))),
        None => None,
    }
}

/// Whether `signature_b64` is the text of a signature of `message` that
/// verifies under the key whose text is `public_key_b64`.
pub open spec fn signature_verifies(
    public_key_b64: Seq<char>,
    signature_b64: Seq<char>,
    message: Seq<char>,
) -> bool {
    match (base64_bytes(public_key_b64), base64_bytes(signature_b64)) {
        (Some(public_key), Some(signature)) => ed25519_accepts(
            public_key,
            encode_utf8(message),
            signature,
        ),
        _ => false,
    }
}

/// Fills a master key with the bytes of `password`.
pub fn derive_key(password: &str) -> (key: Vec<u8>)
    ensures
        key@ == derived_key(encode_utf8(password@)),
{
    let bytes = password.as_bytes();
    let mut key: Vec<u8> = Vec::new();
    let mut i: usize = 0;
    while i < MASTER_KEY_LEN
        invariant
            0 <= i <= MASTER_KEY_LEN,
            bytes@ == encode_utf8(password@),
            key@.len() == i,
            forall|j: int| 0 <= j < i ==> key@[j] == derived_key(bytes@)[j],
        decreases MASTER_KEY_LEN - i,
    {
        let byte: u8 = if bytes.len() > 0 {
            bytes[i % bytes.len()]
        } else {
            0
        };
        key.push(byte);
        i += 1;
    }
    key
}

/// Seals, opens, signs and verifies for the accounts.
pub struct CryptoManager {
    master_key: Vec<u8>,
}

impl CryptoManager {
    /// The master key.
    pub closed spec fn key(&self) -> Seq<u8> {
        self.master_key@
    }

    /// A manager whose master key is derived from `master_password`.
    ///
    /// Fails with `KeyGeneration` where the cipher turns the key down.
    pub fn new(master_password: &str) -> (manager: Result<CryptoManager, CryptoError>)
        ensures
            match manager {
                Ok(manager) => manager.key() == derived_key(encode_utf8(master_password@)),
                Err(error) => error is KeyGeneration,
            },
    {
        let master_key = derive_key(master_password);
        match aes_256_gcm_check_key(master_key.as_slice()) {
            Ok(_) => Ok(CryptoManager { master_key }),
            Err(_) => Err(CryptoError::KeyGeneration),
        }
    }

    /// A new Ed25519 key pair: the public key and the PKCS#8 document of the
    /// pair, both as base64.
    ///
    /// Fails with `KeyGeneration` where no pair could be drawn, and with
    /// `InvalidKey` where the pair drawn is turned down when read back.
    pub fn generate_keypair(&self) -> (pair: Result<(String, String), CryptoError>)
        ensures
            match pair {
                Ok((public_key, private_key)) => exists|pkcs8: Seq<u8>|
                    #[trigger] keypair_texts(pkcs8) == Some((public_key@, private_key@)),
                Err(error) => error is KeyGeneration || error is InvalidKey,
            },
    {
        match ed25519_generate_pkcs8() {
            Ok(pkcs8) => keypair_of(pkcs8),
            Err(_) => Err(CryptoError::KeyGeneration),
        }
    }

    /// Seals `private_key` for the user `user_id` and returns the result as
    /// base64. Fails with `Encryption` where the cipher does.
    pub fn encrypt_private_key(&self, private_key: &str, user_id: &str) -> (sealed: Result<
        String,
        CryptoError,
    >)
        ensures
            match sealed {
                Ok(text) => sealed_text(self.key(), private_key@, user_id@) == Some(text@),
                Err(error) => error is Encryption && sealed_text(self.key(), private_key@, user_id@)
                    is None,
            },
    {
        let nonce: [u8; 12] = [0, 0, 0, 0, 0, 0, 0, 0, 0, 0, 0, 0];
        assert(nonce@ =~= sealing_nonce());
        match aes_256_gcm_seal(
            self.master_key.as_slice(),
            &nonce,
            user_id.as_bytes(),
            private_key.as_bytes(),
        ) {
            Ok(sealed) => Ok(base64_encode(sealed.as_slice())),
            Err(_) => Err(CryptoError::Encryption),
        }
    }

    /// Opens what [`CryptoManager::encrypt_private_key`] has sealed for the
    /// user `user_id`.
    ///
    /// Fails with `Base64Error` where `encrypted_key` is not base64, with
    /// `Decryption` where it was not sealed under this key for this user, and
    /// with `Utf8Error` where what was sealed is not text.
    pub fn decrypt_private_key(&self, encrypted_key: &str, user_id: &str) -> (opened: Result<
        String,
        CryptoError,
    >)
        ensures
            match base64_bytes(encrypted_key@) {
                None => opened matches Err(error) && error is Base64Error,
                Some(sealed) => match aes_256_gcm_opened(
                    self.key(),
                    sealing_nonce(),
                    encode_utf8(user_id@),
                    sealed,
                ) {
                    None => opened matches Err(error) && error is Decryption,
                    Some(plain) => if valid_utf8(plain) {
                        opened matches Ok(text) && text@ == decode_utf8(plain)
                    } else {
                        opened matches Err(error) && error is Utf8Error
                    },
                },
            },
    {
        let nonce: [u8; 12] = [0, 0, 0, 0, 0, 0, 0, 0, 0, 0, 0, 0];
        assert(nonce@ =~= sealing_nonce());
        let sealed = match base64_decode(encrypted_key) {
            Ok(sealed) => sealed,
            Err(error) => {
                return Err(CryptoError::Base64Error(error));
            },
        };
        let plain = match aes_256_gcm_open(
            self.master_key.as_slice(),
            &nonce,
            user_id.as_bytes(),
            sealed.as_slice(),
        ) {
            Ok(plain) => plain,
            Err(_) => {
                return Err(CryptoError::Decryption);
            },
        };
        match utf8_text(plain) {
            Ok(text) => Ok(text),
            Err(error) => Err(CryptoError::Utf8Error(error)),
        }
    }

    /// Signs `transaction_data` with the key pair whose PKCS#8 document is
    /// `private_key_b64` in base64, and returns the signature as base64.
    ///
    /// Fails with `Base64Error` where `private_key_b64` is not base64, and
    /// with `InvalidKey` where what it stands for is no key pair.
    pub fn sign_transaction(&self, private_key_b64: &str, transaction_data: &str) -> (signature:
        Result<String, CryptoError>)
        ensures
            match base64_bytes(private_key_b64@) {
                None => signature matches Err(error) && error is Base64Error,
                Some(pkcs8) => match ed25519_signature(pkcs8, encode_utf8(transaction_data@)) {
                    None => signature matches Err(error) && error is InvalidKey,
                    Some(bytes) => signature matches Ok(text) && text@ == base64_text(bytes),
                },
            },
    {
        let pkcs8 = match base64_decode(private_key_b64) {
            Ok(pkcs8) => pkcs8,
            Err(error) => {
                return Err(CryptoError::Base64Error(error));
            },
        };
        match ed25519_sign(pkcs8.as_slice(), transaction_data.as_bytes()) {
            Ok(signature) => Ok(base64_encode(signature.as_slice())),
            Err(_) => Err(CryptoError::InvalidKey),
        }
    }

    /// Whether `signature_b64` is a signature of `message` under the public
    /// key `public_key_b64`, both in base64. Texts that are not base64 verify
    /// nothing.
    pub fn verify_signature(&self, public_key_b64: &str, signature_b64: &str, message: &str) -> (valid:
        bool)
        ensures
            valid == signature_verifies(public_key_b64@, signature_b64@, message@),
    {
        let public_key = match base64_decode(public_key_b64) {
            Ok(public_key) => public_key,
            Err(_) => {
                return false;
            },
        };
        let signature = match base64_decode(signature_b64) {
            Ok(signature) => signature,
            Err(_) => {
                return false;
            },
        };
        ed25519_verify(public_key.as_slice(), message.as_bytes(), signature.as_slice())
    }
}

/// The texts of the key pair in the PKCS#8 document `pkcs8`: the public key
/// and the document, both as base64. Fails with `InvalidKey` where the
/// document holds no consistent key pair.
pub fn keypair_of(pkcs8: Vec<u8>) -> (pair: Result<(String, String), CryptoError>)
    ensures
        match pair {
            Ok((public_key, private_key)) => keypair_texts(pkcs8@) == Some(
                (public_key@, private_key@),
            ),
            Err(error) => error is InvalidKey && keypair_texts(pkcs8@) is None,
        },
{
    match ed25519_public_key(pkcs8.as_slice()) {
        Ok(public_key) => Ok((base64_encode(public_key.as_slice()), base64_encode(pkcs8.as_slice()))),
        Err(_) => Err(CryptoError::InvalidKey),
    }
}

} // verus!
