//! Sealing the settings under a password and opening them again.
//!
//! The key comes from the password and a salt by Argon2id, the seal is
//! ChaCha20-Poly1305. Drawing the salt and the nonce, and writing the sealed
//! settings to disk, is left to the caller.

use vstd::prelude::*;
use chacha20poly1305::aead::{Aead, KeyInit};

verus! {

/// The bytes of a nonce.
pub const NONCE_SIZE: usize = 12;

/// The bytes of a key.
pub const KEY_SIZE: usize = 32;

/// Sealed settings: the salt of the key, the nonce of the seal, and the
/// sealed bytes.
#[derive(Debug)]
pub struct EncryptedConfig {
    pub salt: Vec<u8>,
    pub nonce: Vec<u8>,
    pub ciphertext: Vec<u8>,
}

pub ghost struct EncryptedConfigView {
    pub salt: Seq<u8>,
    pub nonce: Seq<u8>,
    pub ciphertext: Seq<u8>,
}

impl View for EncryptedConfig {
    type V = EncryptedConfigView;

    open spec fn view(&self) -> EncryptedConfigView {
        EncryptedConfigView { salt: self.salt@, nonce: self.nonce@, ciphertext: self.ciphertext@ }
    }
}

/// Why settings could not be sealed or opened.
#[derive(Debug, Clone, Copy, PartialEq, Eq, Structural)]
pub enum EncryptionError {
    /// No key could be made of the password and the salt.
    KeyDerivation,
    /// The key or the nonce has not the length that the cipher takes.
    Cipher,
    /// The cipher could not seal the bytes.
    Encryption,
    /// The cipher could not open the bytes: they were not sealed with this
    /// password, or they were changed.
    Decryption,
}

/// What an error says to the user.
pub open spec fn error_text(e: EncryptionError) -> Seq<char> {
    match e {
        EncryptionError::KeyDerivation => "Key derivation failed"@,
        EncryptionError::Cipher => "Failed to create cipher"@,
        EncryptionError::Encryption => "Encryption failed"@,
        EncryptionError::Decryption => "Decryption failed - wrong password?"@,
    }
}

impl EncryptionError {
    pub fn message(&self) -> (r: &'static str)
        ensures
            r@ == error_text(*self),
    {
        match self {
            EncryptionError::KeyDerivation => "Key derivation failed",
            EncryptionError::Cipher => "Failed to create cipher",
            EncryptionError::Encryption => "Encryption failed",
            EncryptionError::Decryption => "Decryption failed - wrong password?",
        }
    }
}

/// The bytes of an optional byte vector.
pub open spec fn bytes_of(v: Option<Vec<u8>>) -> Option<Seq<u8>> {
    match v {
        Some(b) => Some(b@),
        None => None,
    }
}

/// The key that Argon2id with its default parameters makes of a password
/// and a salt; nothing where it refuses them.
pub uninterp spec fn argon2_key(password: Seq<char>, salt: Seq<u8>) -> Option<Seq<u8>>;

/// What ChaCha20-Poly1305 makes of a plaintext under a key and a nonce;
/// nothing where it fails.
pub uninterp spec fn chacha_sealed(key: Seq<u8>, nonce: Seq<u8>, plaintext: Seq<u8>) -> Option<
    Seq<u8>,
>;

/// What ChaCha20-Poly1305 finds under a key and a nonce in sealed bytes;
/// nothing where they do not bear the seal of this key and nonce.
pub uninterp spec fn chacha_opened(key: Seq<u8>, nonce: Seq<u8>, ciphertext: Seq<u8>) -> Option<
    Seq<u8>,
>;

/// `argon2::Argon2::default().hash_password_into` with the bytes of the
/// password, the salt, and an output buffer of `KEY_SIZE` bytes: the buffer
/// afterwards, or nothing where the call returns an error. The key depends
/// on the password and the salt alone.
#[verifier::external_body]
fn derive_key_bytes(password: &str, salt: &Vec<u8>) -> (r: Option<Vec<u8>>)
    ensures
        bytes_of(r) == argon2_key(password@, salt@),
        r.is_some() ==> r.unwrap().len() == KEY_SIZE,
{
    let mut key = [0u8; KEY_SIZE];
    match argon2::Argon2::default().hash_password_into(password.as_bytes(), salt, &mut key) {
        Ok(()) => Some(key.to_vec()),
        Err(_) => None,
    }
}

/// `chacha20poly1305::ChaCha20Poly1305::new_from_slice` on the key and
/// `Aead::encrypt` with the nonce and the plaintext: the sealed bytes, or
/// nothing where the cipher returns an error. A key of another length than
/// `KEY_SIZE` is refused by the crate, a nonce of another length than
/// `NONCE_SIZE` makes it panic: both are left out.
#[verifier::external_body]
fn cipher_seal(key: &Vec<u8>, nonce: &Vec<u8>, plaintext: &Vec<u8>) -> (r: Option<Vec<u8>>)
    requires
        key.len() == KEY_SIZE,
        nonce.len() == NONCE_SIZE,
    ensures
        bytes_of(r) == chacha_sealed(key@, nonce@, plaintext@),
{
    let cipher = chacha20poly1305::ChaCha20Poly1305::new_from_slice(key).ok()?;
    cipher.encrypt(chacha20poly1305::Nonce::from_slice(nonce), plaintext.as_slice()).ok()
}

/// `chacha20poly1305::ChaCha20Poly1305::new_from_slice` on the key and
/// `Aead::decrypt` with the nonce and the sealed bytes: the plaintext, or
/// nothing where the cipher returns an error. The lengths are bound as for
/// sealing.
#[verifier::external_body]
fn cipher_open(key: &Vec<u8>, nonce: &Vec<u8>, ciphertext: &Vec<u8>) -> (r: Option<Vec<u8>>)
    requires
        key.len() == KEY_SIZE,
        nonce.len() == NONCE_SIZE,
    ensures
        bytes_of(r) == chacha_opened(key@, nonce@, ciphertext@),
{
    let cipher = chacha20poly1305::ChaCha20Poly1305::new_from_slice(key).ok()?;
    cipher.decrypt(chacha20poly1305::Nonce::from_slice(nonce), ciphertext.as_slice()).ok()
}

/// The key for a seal, or the error that says why there is none.
pub open spec fn usable_key(key: Option<Seq<u8>>) -> Result<Seq<u8>, EncryptionError> {
    match key {
        Some(k) => if k.len() == KEY_SIZE {
            Ok(k)
        } else {
            Err(EncryptionError::Cipher)
        },
        None => Err(EncryptionError::KeyDerivation),
    }
}

/// What sealing gives: the sealed settings, or the first error on the way.
pub open spec fn sealed(data: Seq<u8>, password: Seq<char>, salt: Seq<u8>, nonce: Seq<u8>)
    -> Result<EncryptedConfigView, EncryptionError> {
    match usable_key(argon2_key(password, salt)) {
        Ok(key) => if nonce.len() != NONCE_SIZE {
            Err(EncryptionError::Cipher)
        } else {
            match chacha_sealed(key, nonce, data) {
                Some(ciphertext) => Ok(EncryptedConfigView { salt, nonce, ciphertext }),
                None => Err(EncryptionError::Encryption),
            }
        },
        Err(e) => Err(e),
    }
}

/// What opening gives: the plaintext, or the first error on the way.
pub open spec fn opened(encrypted: EncryptedConfigView, password: Seq<char>) -> Result<
    Seq<u8>,
    EncryptionError,
> {
    match usable_key(argon2_key(password, encrypted.salt)) {
        Ok(key) => if encrypted.nonce.len() != NONCE_SIZE {
            Err(EncryptionError::Decryption)
        } else {
            match chacha_opened(key, encrypted.nonce, encrypted.ciphertext) {
                Some(plaintext) => Ok(plaintext),
                None => Err(EncryptionError::Decryption),
            }
        },
        Err(e) => Err(e),
    }
}

pub open spec fn key_view(r: Result<Vec<u8>, EncryptionError>) -> Result<
    Seq<u8>,
    EncryptionError,
> {
    match r {
        Ok(k) => Ok(k@),
        Err(e) => Err(e),
    }
}

pub open spec fn frame_view(r: Result<EncryptedConfig, EncryptionError>) -> Result<
    EncryptedConfigView,
    EncryptionError,
> {
    match r {
        Ok(f) => Ok(f@),
        Err(e) => Err(e),
    }
}

/// The key for a seal from what the key derivation gave.
pub fn key_or_error(key: Option<Vec<u8>>) -> (r: Result<Vec<u8>, EncryptionError>)
    ensures
        key_view(r) == usable_key(bytes_of(key)),
{
    match key {
        Some(k) => {
            if k.len() == KEY_SIZE {
                Ok(k)
            } else {
                Err(EncryptionError::Cipher)
            }
        },
        None => Err(EncryptionError::KeyDerivation),
    }
}

/// The sealed settings from what the cipher gave.
pub fn frame_or_error(ciphertext: Option<Vec<u8>>, salt: Vec<u8>, nonce: Vec<u8>) -> (r: Result<
    EncryptedConfig,
    EncryptionError,
>)
    ensures
        frame_view(r) == match bytes_of(ciphertext) {
            Some(c) => Ok::<EncryptedConfigView, EncryptionError>(
                (EncryptedConfigView { salt: salt@, nonce: nonce@, ciphertext: c }),
            ),
            None => Err::<EncryptedConfigView, EncryptionError>(EncryptionError::Encryption),
        },
{
    match ciphertext {
        Some(c) => Ok(EncryptedConfig { salt, nonce, ciphertext: c }),
        None => Err(EncryptionError::Encryption),
    }
}

/// The plaintext from what the cipher gave.
pub fn plaintext_or_error(plaintext: Option<Vec<u8>>) -> (r: Result<Vec<u8>, EncryptionError>)
    ensures
        key_view(r) == match bytes_of(plaintext) {
            Some(p) => Ok::<Seq<u8>, EncryptionError>(p),
            None => Err::<Seq<u8>, EncryptionError>(EncryptionError::Decryption),
        },
{
    match plaintext {
        Some(p) => Ok(p),
        None => Err(EncryptionError::Decryption),
    }
}

/// Seals and opens the settings.
#[derive(Debug, Clone, Copy)]
pub struct ConfigEncryption {}

impl ConfigEncryption {
    pub fn new() -> (r: Self) {
        ConfigEncryption {  }
    }

    /// Seals `data` under a key made of the password and the salt, with the
    /// nonce given. The salt and the nonce are to be drawn at random for
    /// every call.
    pub fn encrypt(&self, data: &Vec<u8>, password: &str, salt: Vec<u8>, nonce: Vec<u8>) -> (r:
        Result<EncryptedConfig, EncryptionError>)
        ensures
            frame_view(r) == sealed(data@, password@, salt@, nonce@),
    {
        match key_or_error(derive_key_bytes(password, &salt)) {
            Ok(key) => {
                if nonce.len() != NONCE_SIZE {
                    Err(EncryptionError::Cipher)
                } else {
                    let ciphertext = cipher_seal(&key, &nonce, data);
                    frame_or_error(ciphertext, salt, nonce)
                }
            },
            Err(e) => Err(e),
        }
    }

    /// Opens sealed settings with the password. Settings whose nonce has not
    /// the length of a nonce cannot be opened.
    pub fn decrypt(&self, encrypted: &EncryptedConfig, password: &str) -> (r: Result<
        Vec<u8>,
        EncryptionError,
    >)
        ensures
            key_view(r) == opened(encrypted@, password@),
    {
        match key_or_error(derive_key_bytes(password, &encrypted.salt)) {
            Ok(key) => {
                if encrypted.nonce.len() != NONCE_SIZE {
                    Err(EncryptionError::Decryption)
                } else {
                    plaintext_or_error(cipher_open(&key, &encrypted.nonce, &encrypted.ciphertext))
                }
            },
            Err(e) => Err(e),
        }
    }
}

impl Default for ConfigEncryption {
    fn default() -> (r: Self) {
        ConfigEncryption::new()
    }
}

} // verus!
