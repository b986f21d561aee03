//! Credential derivation: from a master password to a login verifier and to
//! the key that wraps the vault key.
//!
//! The password is hashed with a first salt; the hash gives the key that
//! wraps the vault key. The text of that hash is hashed again with a second
//! salt; the text of the second hash is the verifier that is stored. The
//! verifier is checked before the vault key is unwrapped.

use crate::encoding::{base64_bytes, base64_decode, base64_text};
use crate::encryption::{
    decrypted, encrypted, is_nonce, sealable, CipherText, Encryption, EncryptionError, KEY_LEN,
};
use pbkdf2::password_hash::rand_core::OsRng;
use pbkdf2::password_hash::{PasswordHash, PasswordHasher, PasswordVerifier, SaltString};
use pbkdf2::Pbkdf2;
use vstd::prelude::*;
use vstd::utf8::*;

verus! {

/// What PBKDF2-SHA256 with its default parameters makes of a password and
/// the text of a salt: the raw output and the self-describing text that
/// holds algorithm, parameters, salt and output. `None` where the salt is
/// not accepted.
pub uninterp spec fn kdf_hashed(password: Seq<u8>, salt: Seq<char>) -> Option<
    (Seq<u8>, Seq<char>),
>;

/// Whether `hash` is the text of a hash that `password` verifies against.
pub uninterp spec fn kdf_verified(password: Seq<u8>, hash: Seq<char>) -> bool;

/// Number of bytes in a vault key's text.
pub const KEY_TEXT_SEED_LEN: usize = 32;

/// A password hash: the raw output, which serves as a key, and its
/// self-describing text.
pub struct DerivedHash {
    bytes: Vec<u8>,
    text: String,
}

impl DerivedHash {
    /// The raw output, `KEY_LEN` bytes.
    pub closed spec fn bytes(&self) -> Seq<u8> {
        self.bytes@
    }

    /// The self-describing text.
    pub closed spec fn text(&self) -> Seq<char> {
        self.text@
    }

    #[verifier::type_invariant]
    spec fn well_formed(&self) -> bool {
        self.bytes@.len() == KEY_LEN
    }

    /// The self-describing text.
    pub fn as_text(&self) -> (text: &str)
        ensures
            text@ == self.text(),
    {
        self.text.as_str()
    }

    /// The raw output.
    pub fn as_bytes(&self) -> (bytes: &[u8])
        ensures
            bytes@ == self.bytes(),
            bytes@.len() == KEY_LEN,
    {
        proof {
            use_type_invariant(self);
        }
        self.bytes.as_slice()
    }
}

/// The model of a hash that may be absent.
pub open spec fn hash_view(hash: Option<DerivedHash>) -> Option<(Seq<u8>, Seq<char>)> {
    match hash {
        Some(h) => Some((h.bytes(), h.text())),
        None => None,
    }
}

/// `SaltString::generate` on the operating system's random generator, as
/// text: the unpadded base64 of 16 random bytes. Every password can be
/// hashed with it.
#[verifier::external_body]
fn fresh_salt() -> (salt: String)
    ensures
        forall|password: Seq<u8>| (#[trigger] kdf_hashed(password, salt@)) is Some,
{
    SaltString::generate(&mut OsRng).as_str().to_string()
}

/// `Pbkdf2.hash_password` with the default parameters: the hash of
/// `password` under the salt whose text is `salt`, `None` where the outside
/// function reports an error. The output has `KEY_LEN` bytes, and
/// `password` verifies against the text.
#[verifier::external_body]
fn hash_password(password: &[u8], salt: &str) -> (hash: Option<DerivedHash>)
    ensures
        hash_view(hash) == kdf_hashed(password@, salt@),
        hash matches Some(h) ==> h.bytes().len() == KEY_LEN && kdf_verified(password@, h.text()),
{
    match Pbkdf2.hash_password(password, salt) {
        Ok(hash) => match &hash.hash {
            Some(output) => Some(
                DerivedHash { bytes: output.as_bytes().to_vec(), text: hash.to_string() },
            ),
            None => None,
        },
        Err(_) => None,
    }
}

/// `PasswordHash::new` on the text, then `Pbkdf2.verify_password`: whether
/// the text parses as a hash and `password` verifies against it.
#[verifier::external_body]
fn verify_password(password: &[u8], hash: &str) -> (verified: bool)
    ensures
        verified == kdf_verified(password@, hash@),
{
    match PasswordHash::new(hash) {
        Ok(parsed) => Pbkdf2.verify_password(password, &parsed).is_ok(),
        Err(_) => false,
    }
}

/// What is stored of a master password: the first salt, the wrapped vault
/// key with its nonce, and the verifier, which holds the second salt.
#[derive(Debug)]
pub struct RawUserPassword {
    /// The wrapped vault key.
    pub key: String,
    /// The nonce that wrapped it.
    pub iv: String,
    /// The verifier: the hash of the text of the password's hash.
    pub hash: String,
    /// The salt of the password's hash.
    pub salt: String,
}

/// The model of a `RawUserPassword`.
pub struct RawUserPasswordView {
    pub key: Seq<char>,
    pub iv: Seq<char>,
    pub hash: Seq<char>,
    pub salt: Seq<char>,
}

impl View for RawUserPassword {
    type V = RawUserPasswordView;

    open spec fn view(&self) -> RawUserPasswordView {
        RawUserPasswordView { key: self.key@, iv: self.iv@, hash: self.hash@, salt: self.salt@ }
    }
}

impl Clone for RawUserPassword {
    fn clone(&self) -> (copy: Self)
        ensures
            copy@ == self@,
    {
        RawUserPassword {
            key: self.key.clone(),
            iv: self.iv.clone(),
            hash: self.hash.clone(),
            salt: self.salt.clone(),
        }
    }
}

/// The vault key that a wrapped key opens to under `wrapping_key`: the
/// wrapped text is the base64 of the key.
pub open spec fn unwrapped_key(wrapping_key: Seq<u8>, key: Seq<char>, iv: Seq<char>) -> Option<
    Seq<u8>,
> {
    match decrypted(wrapping_key, key, iv) {
        Ok(text) => match base64_bytes(text) {
            Some(vault_key) => if vault_key.len() == KEY_LEN {
                Some(vault_key)
            } else {
                None
            },
            None => None,
        },
        Err(_) => None,
    }
}

/// The vault key that `password` unlocks from `record`, `None` where the
/// login is refused: the salt is not accepted, the verifier does not match,
/// or the wrapped key does not open to a key.
pub open spec fn login_key(record: RawUserPasswordView, password: Seq<char>) -> Option<Seq<u8>> {
    match kdf_hashed(encode_utf8(password), record.salt) {
        Some((bytes, text)) => if kdf_verified(encode_utf8(text), record.hash) {
            unwrapped_key(bytes, record.key, record.iv)
        } else {
            None
        },
        None => None,
    }
}

/// Whether `record` is what a signup stores of `password` for the vault key
/// `vault_key`, with `second_salt` as the salt of the verifier: the record's
/// salt gives the password's hash; under the raw output of that hash and the
/// record's nonce, the base64 text of the vault key is wrapped; and the
/// verifier is the text of the hash of the first hash's text.
pub open spec fn enrolls(
    record: RawUserPasswordView,
    password: Seq<char>,
    vault_key: Seq<u8>,
    second_salt: Seq<char>,
) -> bool {
    &&& kdf_hashed(encode_utf8(password), record.salt) matches Some((bytes, text))
    &&& is_nonce(record.iv)
    &&& record.key == encrypted(bytes, base64_text(vault_key), record.iv).ciphertext
    &&& kdf_hashed(encode_utf8(text), second_salt) matches Some((_, verifier))
    &&& record.hash == verifier
}

/// The model of a key that may be absent.
pub open spec fn key_view(encryption: Option<Encryption>) -> Option<Seq<u8>> {
    match encryption {
        Some(e) => Some(e.key()),
        None => None,
    }
}

/// First step: hashes the password under the first salt.
pub fn derive_key(password: &str, salt: &str) -> (hash: Option<DerivedHash>)
    ensures
        hash_view(hash) == kdf_hashed(encode_utf8(password@), salt@),
{
    hash_password(password.as_bytes(), salt)
}

/// Second step of a signup: wraps the text of the vault key under the
/// password's hash.
pub fn wrap_vault_key(hash: &DerivedHash, key_text: &str) -> (r: Result<
    CipherText,
    EncryptionError,
>)
    ensures
        r is Ok <==> sealable(encode_utf8(key_text@).len() as int),
        r matches Err(e) ==> e == EncryptionError::TooLong,
        r matches Ok(wrapped) ==> {
            &&& is_nonce(wrapped.nonce@)
            &&& wrapped@ == encrypted(hash.bytes(), key_text@, wrapped.nonce@)
            &&& decrypted(hash.bytes(), wrapped.ciphertext@, wrapped.nonce@) == Ok::<
                Seq<char>,
                EncryptionError,
            >(key_text@)
        },
{
    Encryption::new(hash.as_bytes()).encrypt(key_text)
}

/// Third step of a signup: hashes the text of the password's hash under the
/// second salt. The text of that hash is the verifier.
pub fn derive_verifier(hash: &DerivedHash, salt: &str) -> (verifier: Option<String>)
    ensures
        match kdf_hashed(encode_utf8(hash.text()), salt@) {
            Some((_, text)) => verifier matches Some(v) && v@ == text && kdf_verified(
                encode_utf8(hash.text()),
                v@,
            ),
            None => verifier is None,
        },
{
    match hash_password(hash.as_text().as_bytes(), salt) {
        Some(second) => Some(second.text),
        None => None,
    }
}

/// Second step of a login: whether the stored verifier matches the text of
/// the password's hash.
pub fn check_verifier(hash: &DerivedHash, verifier: &str) -> (matches: bool)
    ensures
        matches == kdf_verified(encode_utf8(hash.text()), verifier@),
{
    verify_password(hash.as_text().as_bytes(), verifier)
}

/// The text of the hash of `password` under a fresh random salt. The
/// password verifies against it.
pub fn hash_new_password(password: &str) -> (hash: String)
    ensures
        kdf_verified(encode_utf8(password@), hash@),
        exists|salt: Seq<char>|
            (#[trigger] kdf_hashed(encode_utf8(password@), salt)) matches Some((_, text))
                && hash@ == text,
{
    let salt = fresh_salt();
    match hash_password(password.as_bytes(), salt.as_str()) {
        Some(hash) => hash.text,
        None => unreached(),
    }
}

/// Whether `password` verifies against the text of a hash.
pub fn check_password(password: &str, hash: &str) -> (verified: bool)
    ensures
        verified == kdf_verified(encode_utf8(password@), hash@),
{
    verify_password(password.as_bytes(), hash)
}

/// Third step of a login: opens the wrapped vault key under the password's
/// hash.
pub fn unwrap_vault_key(hash: &DerivedHash, key: &str, iv: &str) -> (vault_key: Option<
    Encryption,
>)
    ensures
        key_view(vault_key) == unwrapped_key(hash.bytes(), key@, iv@),
{
    let wrapping = Encryption::new(hash.as_bytes());
    let text = match wrapping.decrypt(String::from_str(key), String::from_str(iv)) {
        Ok(text) => text,
        Err(_) => {
            return None;
        },
    };
    match base64_decode(text.as_str()) {
        Some(vault_key) => if vault_key.len() == KEY_LEN {
            Some(Encryption::new(vault_key.as_slice()))
        } else {
            None
        },
        None => None,
    }
}

/// The signup path: a fresh vault key, and what is stored of `password` to
/// unlock it again. A login with the same password gives the same key.
pub fn enroll(password: &str) -> (r: (RawUserPassword, Encryption))
    ensures
        r.1.key().len() == KEY_LEN,
        exists|second_salt: Seq<char>| #[trigger] enrolls(r.0@, password@, r.1.key(), second_salt),
        login_key(r.0@, password@) == Some(r.1.key()),
{
    let salt = fresh_salt();
    let hash = match derive_key(password, salt.as_str()) {
        Some(hash) => hash,
        None => unreached(),
    };
    let key_text = Encryption::generate(KEY_TEXT_SEED_LEN);
    proof {
        is_ascii_chars_encode_utf8(key_text@);
    }
    let vault_key = match base64_decode(key_text.as_str()) {
        Some(vault_key) => vault_key,
        None => unreached(),
    };
    let wrapped = match wrap_vault_key(&hash, key_text.as_str()) {
        Ok(wrapped) => wrapped,
        Err(_) => unreached(),
    };
    let second_salt = fresh_salt();
    let verifier = match derive_verifier(&hash, second_salt.as_str()) {
        Some(verifier) => verifier,
        None => unreached(),
    };
    let record = RawUserPassword {
        key: wrapped.ciphertext,
        iv: wrapped.nonce,
        hash: verifier,
        salt,
    };
    let encryption = Encryption::new(vault_key.as_slice());
    let r = (record, encryption);
    assert(enrolls(r.0@, password@, r.1.key(), second_salt@));
    r
}

/// The login path: the vault key that `password` unlocks from `record`,
/// `None` where the login is refused.
pub fn authenticate(record: &RawUserPassword, password: &str) -> (vault_key: Option<Encryption>)
    ensures
        key_view(vault_key) == login_key(record@, password@),
{
    let hash = match derive_key(password, record.salt.as_str()) {
        Some(hash) => hash,
        None => {
            return None;
        },
    };
    if !check_verifier(&hash, record.hash.as_str()) {
        return None;
    }
    unwrap_vault_key(&hash, record.key.as_str(), record.iv.as_str())
}

} // verus!
