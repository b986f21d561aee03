//! The cipher engine: authenticated encryption of text under a raw 32-byte
//! key, with a fresh nonce for every message.

use crate::encoding::{
    base64_bytes, base64_decode, base64_encode, base64_len, base64_text, bytes_view,
    random_bytes, utf8_to_string,
};
use aes_gcm_siv::aead::{Aead, NewAead};
use aes_gcm_siv::{Aes256GcmSiv, Key, Nonce};
use vstd::prelude::*;
use vstd::slice::slice_to_vec;
use vstd::utf8::*;

verus! {

/// Length of a cipher key in bytes.
pub const KEY_LEN: usize = 32;

/// Length of a nonce in bytes.
pub const NONCE_LEN: usize = 12;

/// Length of the authentication tag that the cipher appends.
pub const TAG_LEN: usize = 16;

/// Number of random bytes behind a nonce: their base64 text is the nonce.
pub const NONCE_SEED_LEN: usize = 8;

/// The cipher's limit on a plaintext, in bytes: its keystream ends there, so
/// only what is shorter is sealed.
pub const PLAINTEXT_MAX: u64 = 0x10_0000_0000;

/// The sealed form of `plaintext` under `key` and `nonce`: ciphertext
/// followed by the tag.
pub uninterp spec fn aead_sealed(key: Seq<u8>, nonce: Seq<u8>, plaintext: Seq<u8>) -> Seq<u8>;

/// The plaintext that `sealed` opens to under `key` and `nonce`; `None` where
/// the cipher rejects it.
pub uninterp spec fn aead_opened(key: Seq<u8>, nonce: Seq<u8>, sealed: Seq<u8>) -> Option<Seq<u8>>;

/// AES-256-GCM-SIV encryption without associated data: `Aes256GcmSiv::new`
/// on the key, then `Aead::encrypt`. The cipher seals every plaintext
/// shorter than `PLAINTEXT_MAX`. What it returns is the plaintext's length
/// plus the tag, and opens again to the plaintext under the same key and
/// nonce. The outside code panics on a key or nonce of another length, and
/// on a plaintext of exactly `PLAINTEXT_MAX` bytes, where its counter of
/// keystream blocks overflows; it refuses what is longer still.
#[verifier::external_body]
fn aead_seal(key: &[u8], nonce: &[u8], plaintext: &[u8]) -> (sealed: Option<Vec<u8>>)
    requires
        key@.len() == KEY_LEN,
        nonce@.len() == NONCE_LEN,
        plaintext@.len() < PLAINTEXT_MAX,
        plaintext@.len() + TAG_LEN <= usize::MAX,
    ensures
        sealed is Some,
        sealed matches Some(s) ==> {
            &&& s@ == aead_sealed(key@, nonce@, plaintext@)
            &&& s@.len() == plaintext@.len() + TAG_LEN
            &&& aead_opened(key@, nonce@, s@) == Some(plaintext@)
        },
{
    let cipher = Aes256GcmSiv::new(Key::from_slice(key));
    match cipher.encrypt(Nonce::from_slice(nonce), plaintext) {
        Ok(sealed) => Some(sealed),
        Err(_) => None,
    }
}

/// AES-256-GCM-SIV decryption without associated data: `Aes256GcmSiv::new`
/// on the key, then `Aead::decrypt`. `None` where the cipher reports an
/// error; a plaintext is shorter than what was sealed by the tag. The
/// outside code panics on a key or nonce of another length, and on sealed
/// data whose body, without the tag, has `PLAINTEXT_MAX` bytes or a few
/// more: it applies the keystream before it compares the tag, and its
/// counter of keystream blocks overflows there.
#[verifier::external_body]
fn aead_open(key: &[u8], nonce: &[u8], sealed: &[u8]) -> (plaintext: Option<Vec<u8>>)
    requires
        key@.len() == KEY_LEN,
        nonce@.len() == NONCE_LEN,
        sealed@.len() < PLAINTEXT_MAX + TAG_LEN,
    ensures
        bytes_view(plaintext) == aead_opened(key@, nonce@, sealed@),
        plaintext matches Some(p) ==> p@.len() + TAG_LEN == sealed@.len(),
{
    let cipher = Aes256GcmSiv::new(Key::from_slice(key));
    match cipher.decrypt(Nonce::from_slice(nonce), sealed) {
        Ok(plaintext) => Some(plaintext),
        Err(_) => None,
    }
}

/// Why the cipher engine could not encrypt or decrypt.
#[derive(Clone, Copy, Debug, PartialEq, Eq, Structural)]
pub enum EncryptionError {
    /// The cipher rejected the stored value: wrong key, wrong nonce or
    /// corrupted data.
    AuthenticationFailure,
    /// The stored value is not base64, or the nonce has the wrong length.
    DecodeFailure,
    /// The plaintext, or the stored data, is longer than the cipher, or an
    /// address, can hold.
    TooLong,
}

/// An encrypted message: base64 text of the sealed bytes, and the nonce that
/// sealed them.
pub struct CipherText {
    pub ciphertext: String,
    pub nonce: String,
}

/// The model of a `CipherText`.
pub struct CipherTextView {
    pub ciphertext: Seq<char>,
    pub nonce: Seq<char>,
}

impl View for CipherText {
    type V = CipherTextView;

    open spec fn view(&self) -> CipherTextView {
        CipherTextView { ciphertext: self.ciphertext@, nonce: self.nonce@ }
    }
}

/// Whether a plaintext of `n` bytes can be sealed and written out as text.
pub open spec fn sealable(n: int) -> bool {
    n < PLAINTEXT_MAX && base64_len(n + TAG_LEN) + 7 <= usize::MAX
}

/// Whether sealed data of `n` bytes, tag included, can be handed to the
/// cipher: its body is shorter than the cipher's limit.
pub open spec fn openable(n: int) -> bool {
    n < PLAINTEXT_MAX + TAG_LEN
}

/// Whether a stored text of `n` bytes can be handed to the base64 decoder.
pub open spec fn decodable(n: int) -> bool {
    n + 7 <= usize::MAX
}

/// The text that a decrypted plaintext is returned as: the text it encodes,
/// or its base64 where it is not UTF-8.
pub open spec fn plaintext_text(plaintext: Seq<u8>) -> Seq<char> {
    if valid_utf8(plaintext) {
        decode_utf8(plaintext)
    } else {
        base64_text(plaintext)
    }
}

/// What decrypting the stored `data` with the stored nonce `iv` gives under
/// `key`: `DecodeFailure` for a nonce of the wrong length and for data that
/// is not base64, `TooLong` for data that decodes to more than the cipher
/// takes, `AuthenticationFailure` where the cipher rejects it.
pub open spec fn decrypted(key: Seq<u8>, data: Seq<char>, iv: Seq<char>) -> Result<
    Seq<char>,
    EncryptionError,
> {
    if encode_utf8(iv).len() != NONCE_LEN || !decodable(encode_utf8(data).len() as int) {
        Err(EncryptionError::DecodeFailure)
    } else {
        match base64_bytes(data) {
            None => Err(EncryptionError::DecodeFailure),
            Some(sealed) => if !openable(sealed.len() as int) {
                Err(EncryptionError::TooLong)
            } else {
                match aead_opened(key, encode_utf8(iv), sealed) {
                    None => Err(EncryptionError::AuthenticationFailure),
                    Some(plaintext) => Ok(plaintext_text(plaintext)),
                }
            },
        }
    }
}

/// What encrypting `data` with the nonce text `nonce` gives under `key`.
pub open spec fn encrypted(key: Seq<u8>, data: Seq<char>, nonce: Seq<char>) -> CipherTextView {
    CipherTextView {
        ciphertext: base64_text(aead_sealed(key, encode_utf8(nonce), encode_utf8(data))),
        nonce,
    }
}

/// Whether `nonce` is the text of a nonce: the base64 of `NONCE_SEED_LEN`
/// bytes.
pub open spec fn is_nonce(nonce: Seq<char>) -> bool {
    &&& base64_bytes(nonce) matches Some(seed)
    &&& seed.len() == NONCE_SEED_LEN
    &&& nonce == base64_text(seed)
}

/// The model of a text result.
pub open spec fn text_result(r: Result<String, EncryptionError>) -> Result<
    Seq<char>,
    EncryptionError,
> {
    match r {
        Ok(text) => Ok(text@),
        Err(e) => Err(e),
    }
}

/// Tells whether a plaintext of `n` bytes can be sealed.
fn can_seal(n: usize) -> (b: bool)
    ensures
        b == sealable(n as int),
{
    if n as u64 >= PLAINTEXT_MAX {
        false
    } else if n > usize::MAX - 18 {
        false
    } else {
        (n + 18) / 3 <= (usize::MAX - 7) / 4
    }
}

/// Tells whether sealed data of `n` bytes can be handed to the cipher.
fn can_open(n: usize) -> (b: bool)
    ensures
        b == openable(n as int),
{
    (n as u64) < PLAINTEXT_MAX + TAG_LEN as u64
}

/// Encrypts and decrypts text under one key.
pub struct Encryption {
    key: Vec<u8>,
}

impl Clone for Encryption {
    fn clone(&self) -> (copy: Self)
        ensures
            copy.key() == self.key(),
    {
        proof {
            use_type_invariant(self);
        }
        Encryption { key: self.key.clone() }
    }
}

impl Encryption {
    /// The key, `KEY_LEN` bytes.
    pub closed spec fn key(&self) -> Seq<u8> {
        self.key@
    }

    #[verifier::type_invariant]
    spec fn well_formed(&self) -> bool {
        self.key@.len() == KEY_LEN
    }

    /// Random text: the base64 of `length` random bytes.
    pub fn generate(length: usize) -> (text: String)
        requires
            base64_len(length as int) <= usize::MAX,
        ensures
            text@.len() == base64_len(length as int),
            is_ascii_chars(text@),
            base64_bytes(text@) matches Some(bytes) && bytes.len() == length && text@
                == base64_text(bytes),
    {
        let bytes = random_bytes(length);
        base64_encode(bytes.as_slice())
    }

    /// An engine for `key`.
    pub fn new(key: &[u8]) -> (engine: Self)
        requires
            key@.len() == KEY_LEN,
        ensures
            engine.key() == key@,
    {
        Encryption { key: slice_to_vec(key) }
    }

    /// Decrypts stored `data` with its stored nonce `iv`. A plaintext that is
    /// not UTF-8 comes back as its base64 text. Data that decodes to more
    /// than the cipher takes is refused before the cipher sees it.
    pub fn decrypt(&self, data: String, iv: String) -> (r: Result<String, EncryptionError>)
        ensures
            text_result(r) == decrypted(self.key(), data@, iv@),
            r matches Ok(text) ==> encode_utf8(text@).len() <= encode_utf8(data@).len(),
    {
        proof {
            use_type_invariant(self);
        }
        let nonce = iv.as_str().as_bytes();
        if nonce.len() != NONCE_LEN || data.as_str().as_bytes().len() > usize::MAX - 7 {
            return Err(EncryptionError::DecodeFailure);
        }
        let sealed = match base64_decode(data.as_str()) {
            Some(sealed) => sealed,
            None => {
                return Err(EncryptionError::DecodeFailure);
            },
        };
        if !can_open(sealed.len()) {
            return Err(EncryptionError::TooLong);
        }
        let plaintext = match aead_open(self.key.as_slice(), nonce, sealed.as_slice()) {
            Some(plaintext) => plaintext,
            None => {
                return Err(EncryptionError::AuthenticationFailure);
            },
        };
        let fallback = base64_encode(plaintext.as_slice());
        proof {
            is_ascii_chars_encode_utf8(fallback@);
            if valid_utf8(plaintext@) {
                decode_utf8_encode_utf8(plaintext@);
            }
        }
        match utf8_to_string(plaintext) {
            Some(text) => Ok(text),
            None => Ok(fallback),
        }
    }

    /// Encrypts `data` under a fresh random nonce. Decrypting what comes
    /// back, under the same key, gives `data` again. A plaintext that
    /// reaches the cipher's limit is refused before the cipher sees it.
    pub fn encrypt(&self, data: &str) -> (r: Result<CipherText, EncryptionError>)
        ensures
            r is Ok <==> sealable(encode_utf8(data@).len() as int),
            r matches Err(e) ==> e == EncryptionError::TooLong,
            r matches Ok(c) ==> {
                &&& is_nonce(c.nonce@)
                &&& c@ == encrypted(self.key(), data@, c.nonce@)
                &&& decrypted(self.key(), c.ciphertext@, c.nonce@) == Ok::<
                    Seq<char>,
                    EncryptionError,
                >(data@)
            },
    {
        proof {
            use_type_invariant(self);
        }
        let plaintext = data.as_bytes();
        if !can_seal(plaintext.len()) {
            return Err(EncryptionError::TooLong);
        }
        let nonce_string = Self::generate(NONCE_SEED_LEN);
        proof {
            is_ascii_chars_encode_utf8(nonce_string@);
            encode_utf8_valid_utf8(data@);
            encode_utf8_decode_utf8(data@);
        }
        let nonce = nonce_string.as_str().as_bytes();
        let sealed = match aead_seal(self.key.as_slice(), nonce, plaintext) {
            Some(sealed) => sealed,
            None => {
                return Err(EncryptionError::TooLong);
            },
        };
        let ciphertext = base64_encode(sealed.as_slice());
        proof {
            is_ascii_chars_encode_utf8(ciphertext@);
        }
        Ok(CipherText { ciphertext, nonce: nonce_string })
    }
}

} // verus!
