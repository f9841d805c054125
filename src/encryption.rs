//! A ChaCha20 stream cipher for the payload, with a random key and nonce.

use vstd::prelude::*;
use vstd::string::StringSliceAdditionalSpecFns;
use chacha20::cipher::{KeyIvInit, StreamCipher};
use chacha20::ChaCha20;
use rand::rngs::OsRng;
use rand::RngCore;

verus! {

/// Bytes in a ChaCha20 key.
pub const KEY_LEN: usize = 32;

/// Bytes in a ChaCha20 nonce.
pub const IV_LEN: usize = 12;

/// The most bytes one keystream can cover: 2^32 - 1 blocks of 64 bytes.
pub const MAX_MESSAGE_LEN: u64 = 274877906880;

/// The bytes that ChaCha20 under `key` and `iv`, from block 0, turns `data` into.
pub uninterp spec fn chacha20_xor(key: Seq<u8>, iv: Seq<u8>, data: Seq<u8>) -> Seq<u8>;

/// The text that `bytes` spell as UTF-8, each invalid sequence read as U+FFFD.
pub uninterp spec fn utf8_lossy(bytes: Seq<u8>) -> Seq<char>;

/// Relies on chacha20's `ChaCha20::new_from_slices`, which builds a cipher
/// exactly when the key has 32 bytes and the nonce 12, and on
/// `StreamCipher::apply_keystream`, which XORs the keystream into a buffer of
/// the same length and panics only past 2^32 - 1 blocks of 64 bytes.
#[verifier::external_body]
fn chacha20_apply(key: &[u8], iv: &[u8], data: &[u8]) -> (r: Option<Vec<u8>>)
    requires
        data@.len() <= MAX_MESSAGE_LEN,
    ensures
        r.is_some() == (key@.len() == KEY_LEN && iv@.len() == IV_LEN),
        r.is_some() ==> r.unwrap()@ == chacha20_xor(key@, iv@, data@),
        r.is_some() ==> r.unwrap()@.len() == data@.len(),
{
    match ChaCha20::new_from_slices(key, iv) {
        Ok(mut cipher) => {
            let mut out = data.to_vec();
            cipher.apply_keystream(&mut out);
            Some(out)
        },
        Err(_) => None,
    }
}

/// Relies on rand's `OsRng::try_fill_bytes`, which fills the whole buffer
/// from the operating system's source or reports that it could not.
#[verifier::external_body]
fn os_random_bytes(n: usize) -> (r: Option<Vec<u8>>)
    ensures
        r.is_some() ==> r.unwrap()@.len() == n,
{
    let mut buf = vec![0u8; n];
    match OsRng.try_fill_bytes(&mut buf) {
        Ok(()) => Some(buf),
        Err(_) => None,
    }
}

/// Relies on std's `String::from_utf8_lossy`: the text the bytes spell, with
/// U+FFFD in place of each invalid sequence; no bytes give no text.
#[verifier::external_body]
fn lossy_string(bytes: &[u8]) -> (r: String)
    ensures
        r@ == utf8_lossy(bytes@),
        bytes@.len() == 0 ==> r@.len() == 0,
{
    String::from_utf8_lossy(bytes).into_owned()
}

/// Why the cipher could not be set up or applied.
#[derive(Debug, Clone, Copy, PartialEq, Eq, Structural)]
pub enum CipherError {
    /// The key is not 32 bytes long or the nonce not 12.
    InvalidLength,
    /// The message is longer than one keystream covers.
    MessageTooLong,
    /// The operating system's random source failed.
    RandomSourceUnavailable,
}

/// A ChaCha20 key and nonce.
pub struct EncryptDecrypt {
    key: Vec<u8>,
    iv: Vec<u8>,
}

impl EncryptDecrypt {
    #[verifier::type_invariant]
    spec fn well_sized(self) -> bool {
        self.key@.len() == KEY_LEN && self.iv@.len() == IV_LEN
    }

    /// The key's bytes.
    pub closed spec fn key_bytes(self) -> Seq<u8> {
        self.key@
    }

    /// The nonce's bytes.
    pub closed spec fn iv_bytes(self) -> Seq<u8> {
        self.iv@
    }

    /// A fresh key and nonce from the operating system's random source.
    pub fn new() -> (r: Result<Self, CipherError>)
        ensures
            r matches Ok(e) ==> e.key_bytes().len() == KEY_LEN && e.iv_bytes().len() == IV_LEN,
            r matches Err(e) ==> e == CipherError::RandomSourceUnavailable,
    {
        let key = match os_random_bytes(KEY_LEN) {
            Some(k) => k,
            None => {
                return Err(CipherError::RandomSourceUnavailable);
            },
        };
        let iv = match os_random_bytes(IV_LEN) {
            Some(n) => n,
            None => {
                return Err(CipherError::RandomSourceUnavailable);
            },
        };
        Ok(EncryptDecrypt { key, iv })
    }

    /// The 32 bytes of the key.
    pub fn get_key(&self) -> (r: &[u8])
        ensures
            r@ == self.key_bytes(),
            r@.len() == KEY_LEN,
    {
        proof {
            use_type_invariant(self);
        }
        self.key.as_slice()
    }

    /// The 12 bytes of the nonce.
    pub fn get_iv(&self) -> (r: &[u8])
        ensures
            r@ == self.iv_bytes(),
            r@.len() == IV_LEN,
    {
        proof {
            use_type_invariant(self);
        }
        self.iv.as_slice()
    }

    /// The UTF-8 bytes of `plaintext` run through ChaCha20 under this key and nonce.
    pub fn encrypt_string_with_stream_cipher(&self, plaintext: &str) -> (r: Result<
        Vec<u8>,
        CipherError,
    >)
        ensures
            r is Ok <==> plaintext.spec_bytes().len() <= MAX_MESSAGE_LEN,
            r matches Ok(v) ==> v@ == chacha20_xor(
                self.key_bytes(),
                self.iv_bytes(),
                plaintext.spec_bytes(),
            ),
            r matches Ok(v) ==> v@.len() == plaintext.spec_bytes().len(),
            r matches Err(e) ==> e == CipherError::MessageTooLong,
    {
        proof {
            use_type_invariant(self);
        }
        let bytes = plaintext.as_bytes();
        if bytes.len() as u64 > MAX_MESSAGE_LEN {
            return Err(CipherError::MessageTooLong);
        }
        match chacha20_apply(self.key.as_slice(), self.iv.as_slice(), bytes) {
            Some(v) => Ok(v),
            None => Err(CipherError::InvalidLength),
        }
    }

    /// `data` run back through ChaCha20 under `key` and `iv`, read as UTF-8
    /// with U+FFFD in place of each invalid sequence.
    pub fn decrypt_string_with_stream_cipher(data: &Vec<u8>, key: &[u8], iv: &[u8]) -> (r: Result<
        String,
        CipherError,
    >)
        ensures
            r is Ok <==> key@.len() == KEY_LEN && iv@.len() == IV_LEN && data@.len()
                <= MAX_MESSAGE_LEN,
            r matches Ok(s) ==> s@ == utf8_lossy(chacha20_xor(key@, iv@, data@)),
            r matches Err(e) ==> (e == CipherError::InvalidLength <==> !(key@.len() == KEY_LEN
                && iv@.len() == IV_LEN)),
            r matches Err(e) ==> e == CipherError::InvalidLength || e == CipherError::MessageTooLong,
    {
        if key.len() != KEY_LEN || iv.len() != IV_LEN {
            return Err(CipherError::InvalidLength);
        }
        if data.len() as u64 > MAX_MESSAGE_LEN {
            return Err(CipherError::MessageTooLong);
        }
        match chacha20_apply(key, iv, data.as_slice()) {
            Some(v) => Ok(lossy_string(v.as_slice())),
            None => Err(CipherError::InvalidLength),
        }
    }
}

} // verus!
