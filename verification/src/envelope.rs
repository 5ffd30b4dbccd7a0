//! The key that a guardian's secrets are sealed under, and the envelope that
//! sealed data is stored in.
//!
//! The key is derived from the operator's password and the salt of the
//! configuration directory with Argon2id. Data is sealed with
//! ChaCha20-Poly1305 under a fresh random nonce, and stored as the nonce,
//! then the ciphertext, then the tag.

use crate::error::ConfigError;
use crate::files::{contents, read_text_spec, ConfigDir, ConfigFile};
use crate::hex::{from_hex, hex_decode, is_hex};
use argon2::{Algorithm, Argon2, Params, Version};
use rand::rngs::OsRng;
use rand::RngCore;
use ring::aead::{Aad, LessSafeKey, Nonce, UnboundKey, CHACHA20_POLY1305};
use vstd::prelude::*;
use vstd::slice::slice_subrange;
use vstd::string::*;
use vstd::utf8::encode_utf8;

verus! {

/// Length of a key in bytes.
pub const KEY_LEN: usize = 32;

/// Length of a nonce in bytes.
pub const NONCE_LEN: usize = 12;

/// Length of an authentication tag in bytes.
pub const TAG_LEN: usize = 16;

/// Length of a salt in bytes.
pub const SALT_LEN: usize = 16;

/// Memory that key derivation works in, in KiB.
pub const KDF_MEMORY_KIB: u32 = 19456;

/// Number of passes that key derivation makes over its memory.
pub const KDF_PASSES: u32 = 2;

/// Number of lanes that key derivation runs in.
pub const KDF_LANES: u32 = 1;

/// The most bytes that can be sealed under one nonce.
pub const MAX_PLAINTEXT_LEN: u64 = 274877906880;

/// What Argon2id (version 0x13) derives from a password and a salt with the
/// given memory, passes and lanes, as `len` bytes; nothing where it refuses
/// its input.
pub uninterp spec fn argon2id(
    password: Seq<u8>,
    salt: Seq<u8>,
    memory_kib: u32,
    passes: u32,
    lanes: u32,
    len: usize,
) -> Option<Seq<u8>>;

/// What sealing `plaintext` under `key` and `nonce` with ChaCha20-Poly1305
/// gives, without associated data: the ciphertext followed by the tag.
pub uninterp spec fn sealed(key: Seq<u8>, nonce: Seq<u8>, plaintext: Seq<u8>) -> Option<Seq<u8>>;

/// What opening a ciphertext and tag under `key` and `nonce` with
/// ChaCha20-Poly1305 gives, without associated data: the plaintext, or
/// nothing where the tag does not fit.
pub uninterp spec fn opened(key: Seq<u8>, nonce: Seq<u8>, sealed: Seq<u8>) -> Option<Seq<u8>>;

/// `Argon2::hash_password_into` of `argon2`, for Argon2id in version 0x13
/// with the parameters given and an output of `len` bytes. Nothing comes
/// back where `Params::new` or the hash function refuses what it is given.
#[verifier::external_body]
fn argon2id_hash(
    password: &[u8],
    salt: &[u8],
    memory_kib: u32,
    passes: u32,
    lanes: u32,
    len: usize,
) -> (hash: Option<Vec<u8>>)
    requires
        lanes <= 0xff_ffff,
    ensures
        match hash {
            Some(h) => argon2id(password@, salt@, memory_kib, passes, lanes, len) == Some(h@)
                && h@.len() == len,
            None => argon2id(password@, salt@, memory_kib, passes, lanes, len) is None,
        },
{
    let params = Params::new(memory_kib, passes, lanes, Some(len)).ok()?;
    let mut hash = vec![0u8; len];
    Argon2::new(Algorithm::Argon2id, Version::V0x13, params)
        .hash_password_into(password, salt, &mut hash)
        .ok()?;
    Some(hash)
}

/// `LessSafeKey::seal_in_place_append_tag` of `ring`, for ChaCha20-Poly1305
/// without associated data. Sealing succeeds where the key has `KEY_LEN`
/// bytes, the nonce `NONCE_LEN` and the plaintext no more than
/// `MAX_PLAINTEXT_LEN`. What comes back is `TAG_LEN` bytes longer than the
/// plaintext, and opens to the plaintext under the same key and nonce.
#[verifier::external_body]
fn chacha20_poly1305_seal(key: &[u8], nonce: &[u8], plaintext: &[u8]) -> (out: Option<Vec<u8>>)
    ensures
        match out {
            Some(s) => sealed(key@, nonce@, plaintext@) == Some(s@) && s@.len() == plaintext@.len()
                + TAG_LEN && opened(key@, nonce@, s@) == Some(plaintext@),
            None => sealed(key@, nonce@, plaintext@) is None,
        },
        key@.len() == KEY_LEN && nonce@.len() == NONCE_LEN && plaintext@.len() <= MAX_PLAINTEXT_LEN
            ==> out is Some,
{
    let key = LessSafeKey::new(UnboundKey::new(&CHACHA20_POLY1305, key).ok()?);
    let nonce = Nonce::try_assume_unique_for_key(nonce).ok()?;
    let mut in_out = plaintext.to_vec();
    key.seal_in_place_append_tag(nonce, Aad::empty(), &mut in_out).ok()?;
    Some(in_out)
}

/// `LessSafeKey::open_in_place` of `ring`, for ChaCha20-Poly1305 without
/// associated data. A plaintext that comes back is `TAG_LEN` bytes shorter
/// than what was opened.
#[verifier::external_body]
fn chacha20_poly1305_open(key: &[u8], nonce: &[u8], sealed: &[u8]) -> (out: Option<Vec<u8>>)
    ensures
        match out {
            Some(p) => opened(key@, nonce@, sealed@) == Some(p@) && p@.len() + TAG_LEN
                == sealed@.len(),
            None => opened(key@, nonce@, sealed@) is None,
        },
{
    let key = LessSafeKey::new(UnboundKey::new(&CHACHA20_POLY1305, key).ok()?);
    let nonce = Nonce::try_assume_unique_for_key(nonce).ok()?;
    let mut in_out = sealed.to_vec();
    let plaintext = key.open_in_place(nonce, Aad::empty(), &mut in_out).ok()?;
    Some(plaintext.to_vec())
}

/// `RngCore::try_fill_bytes` of `rand`, on `OsRng`: `len` bytes from the
/// operating system, or nothing where it gives none.
#[verifier::external_body]
pub(crate) fn random_bytes(len: usize) -> (bytes: Option<Vec<u8>>)
    ensures
        bytes is Some ==> bytes->0@.len() == len,
{
    let mut bytes = vec![0u8; len];
    OsRng.try_fill_bytes(&mut bytes).ok()?;
    Some(bytes)
}

/// A key for sealing and opening. It is only ever read once derived.
pub struct AeadKey {
    bytes: Vec<u8>,
}

impl View for AeadKey {
    type V = Seq<u8>;

    closed spec fn view(&self) -> Seq<u8> {
        self.bytes@
    }
}

impl AeadKey {
    #[verifier::type_invariant]
    spec fn has_key_len(&self) -> bool {
        self.bytes@.len() == KEY_LEN
    }

    /// The key made of `bytes`, where there are `KEY_LEN` of them.
    pub fn from_bytes(bytes: Vec<u8>) -> (key: Option<AeadKey>)
        ensures
            match key {
                Some(k) => bytes@.len() == KEY_LEN && k@ == bytes@,
                None => bytes@.len() != KEY_LEN,
            },
    {
        if bytes.len() == KEY_LEN {
            Some(AeadKey { bytes })
        } else {
            None
        }
    }
}

/// The salt that a salt file holds: `SALT_LEN` bytes in hexadecimal.
pub open spec fn salt_spec(text: Seq<char>) -> Result<Seq<u8>, ConfigError> {
    if is_hex(text) && hex_decode(text).len() == SALT_LEN {
        Ok(hex_decode(text))
    } else {
        Err(ConfigError::CryptoError)
    }
}

/// The key that belongs to a password and a salt. No password counts as the
/// empty password.
pub open spec fn derived_key(password: Option<Seq<char>>, salt: Seq<u8>) -> Option<Seq<u8>> {
    let password = match password {
        Some(p) => p,
        None => Seq::empty(),
    };
    match argon2id(encode_utf8(password), salt, KDF_MEMORY_KIB, KDF_PASSES, KDF_LANES, KEY_LEN) {
        Some(key) => if key.len() == KEY_LEN {
            Some(key)
        } else {
            None
        },
        None => None,
    }
}

/// The key that belongs to a password and what the salt file holds. A salt
/// file that is not there or holds no text cannot be read; one that does not
/// hold a salt, or that key derivation refuses, gives no key.
pub open spec fn key_spec(password: Option<Seq<char>>, salt_file: Option<Seq<u8>>) -> Result<
    Seq<u8>,
    ConfigError,
> {
    match read_text_spec(salt_file) {
        Err(e) => Err(e),
        Ok(text) => match salt_spec(text) {
            Err(e) => Err(e),
            Ok(salt) => match derived_key(password, salt) {
                Some(key) => Ok(key),
                None => Err(ConfigError::CryptoError),
            },
        },
    }
}

/// What is stored for `plaintext` sealed under `key` and `nonce`: the nonce,
/// then the ciphertext, then the tag.
pub open spec fn envelope_spec(key: Seq<u8>, nonce: Seq<u8>, plaintext: Seq<u8>) -> Option<
    Seq<u8>,
> {
    match sealed(key, nonce, plaintext) {
        Some(s) => Some(nonce + s),
        None => None,
    }
}

/// What an envelope opens to under `key`. An envelope too short to hold a
/// nonce and a tag does not open, nor does one whose tag does not fit.
pub open spec fn open_envelope_spec(key: Seq<u8>, envelope: Seq<u8>) -> Result<
    Seq<u8>,
    ConfigError,
> {
    if envelope.len() < NONCE_LEN + TAG_LEN {
        Err(ConfigError::AuthFailed)
    } else {
        match opened(
            key,
            envelope.subrange(0, NONCE_LEN as int),
            envelope.subrange(NONCE_LEN as int, envelope.len() as int),
        ) {
            Some(plaintext) => Ok(plaintext),
            None => Err(ConfigError::AuthFailed),
        }
    }
}

/// Reads a salt from the text of a salt file.
pub fn salt_from_text(text: &str) -> (r: Result<Vec<u8>, ConfigError>)
    ensures
        match r {
            Ok(salt) => salt_spec(text@) == Ok::<Seq<u8>, ConfigError>(salt@),
            Err(e) => salt_spec(text@) == Err::<Seq<u8>, ConfigError>(e),
        },
{
    match from_hex(text) {
        Some(salt) => if salt.len() == SALT_LEN {
            Ok(salt)
        } else {
            Err(ConfigError::CryptoError)
        },
        None => Err(ConfigError::CryptoError),
    }
}

/// Makes a key of what key derivation gave: `KEY_LEN` bytes, or nothing.
pub fn key_from_hash(hash: Option<Vec<u8>>) -> (r: Result<AeadKey, ConfigError>)
    ensures
        match r {
            Ok(key) => hash is Some && hash->0@.len() == KEY_LEN && key@ == hash->0@,
            Err(e) => e == ConfigError::CryptoError && (hash is None || hash->0@.len() != KEY_LEN),
        },
{
    match hash {
        Some(bytes) => match AeadKey::from_bytes(bytes) {
            Some(key) => Ok(key),
            None => Err(ConfigError::CryptoError),
        },
        None => Err(ConfigError::CryptoError),
    }
}

/// Derives the key from a password and a salt.
pub fn derive_key(password: Option<String>, salt: &Vec<u8>) -> (r: Result<AeadKey, ConfigError>)
    ensures
        match r {
            Ok(key) => derived_key(option_text(password), salt@) == Some(key@),
            Err(e) => e == ConfigError::CryptoError && derived_key(option_text(password), salt@)
                is None,
        },
{
    let password = match password {
        Some(p) => p,
        None => String::new(),
    };
    let hash = argon2id_hash(
        password.as_str().as_bytes(),
        salt.as_slice(),
        KDF_MEMORY_KIB,
        KDF_PASSES,
        KDF_LANES,
        KEY_LEN,
    );
    key_from_hash(hash)
}

/// What an optional string holds.
pub open spec fn option_text(text: Option<String>) -> Option<Seq<char>> {
    match text {
        Some(t) => Some(t@),
        None => None,
    }
}

/// Derives the key from the password and the salt file of the directory.
pub fn get_key(password: Option<String>, dir: &ConfigDir) -> (r: Result<AeadKey, ConfigError>)
    ensures
        match r {
            Ok(key) => key_spec(option_text(password), contents(dir@, ConfigFile::Salt)) == Ok::<
                Seq<u8>,
                ConfigError,
            >(key@),
            Err(e) => key_spec(option_text(password), contents(dir@, ConfigFile::Salt)) == Err::<
                Seq<u8>,
                ConfigError,
            >(e),
        },
{
    let text = match dir.get_text(ConfigFile::Salt) {
        Ok(text) => text,
        Err(e) => {
            return Err(e);
        },
    };
    let salt = match salt_from_text(text.as_str()) {
        Ok(salt) => salt,
        Err(e) => {
            return Err(e);
        },
    };
    derive_key(password, &salt)
}

/// Seals `plaintext` under `key` and the given nonce.
pub fn encrypt_with_nonce(plaintext: &Vec<u8>, key: &AeadKey, nonce: &Vec<u8>) -> (r: Result<
    Vec<u8>,
    ConfigError,
>)
    ensures
        match r {
            Ok(envelope) => nonce@.len() == NONCE_LEN && plaintext@.len() <= MAX_PLAINTEXT_LEN
                && envelope_spec(key@, nonce@, plaintext@) == Some(envelope@) && envelope@.len()
                == NONCE_LEN + plaintext@.len() + TAG_LEN && open_envelope_spec(key@, envelope@)
                == Ok::<Seq<u8>, ConfigError>(plaintext@),
            Err(e) => e == ConfigError::CryptoError && (nonce@.len() != NONCE_LEN
                || plaintext@.len() > MAX_PLAINTEXT_LEN),
        },
{
    proof {
        use_type_invariant(key);
    }
    if nonce.len() != NONCE_LEN || plaintext.len() as u64 > MAX_PLAINTEXT_LEN {
        return Err(ConfigError::CryptoError);
    }
    match chacha20_poly1305_seal(key.bytes.as_slice(), nonce.as_slice(), plaintext.as_slice()) {
        Some(mut body) => {
            let mut envelope = nonce.clone();
            let ghost sealed_body = body@;
            envelope.append(&mut body);
            proof {
                assert(envelope@ =~= nonce@ + sealed_body);
                assert(envelope@.subrange(0, NONCE_LEN as int) =~= nonce@);
                assert(envelope@.subrange(NONCE_LEN as int, envelope@.len() as int)
                    =~= sealed_body);
            }
            Ok(envelope)
        },
        None => Err(ConfigError::CryptoError),
    }
}

/// Seals `plaintext` under `key` and a fresh random nonce. Opening the
/// result under the same key gives the plaintext back.
pub fn encrypt(plaintext: &Vec<u8>, key: &AeadKey) -> (r: Result<Vec<u8>, ConfigError>)
    ensures
        match r {
            Ok(envelope) => envelope@.len() == NONCE_LEN + plaintext@.len() + TAG_LEN
                && envelope_spec(key@, envelope@.subrange(0, NONCE_LEN as int), plaintext@)
                == Some(envelope@) && open_envelope_spec(key@, envelope@) == Ok::<
                Seq<u8>,
                ConfigError,
            >(plaintext@),
            Err(e) => e == ConfigError::CryptoError,
        },
{
    match random_bytes(NONCE_LEN) {
        Some(nonce) => {
            let r = encrypt_with_nonce(plaintext, key, &nonce);
            proof {
                if r is Ok {
                    let envelope = r->Ok_0@;
                    assert(envelope == nonce@ + sealed(key@, nonce@, plaintext@)->0);
                    assert(envelope.subrange(0, NONCE_LEN as int) =~= nonce@);
                }
            }
            r
        },
        None => Err(ConfigError::CryptoError),
    }
}

/// Opens an envelope under `key`. What it opens to is shorter than the
/// envelope by the nonce and the tag.
pub fn decrypt(envelope: &Vec<u8>, key: &AeadKey) -> (r: Result<Vec<u8>, ConfigError>)
    ensures
        match r {
            Ok(plaintext) => open_envelope_spec(key@, envelope@) == Ok::<Seq<u8>, ConfigError>(
                plaintext@,
            ) && plaintext@.len() + NONCE_LEN + TAG_LEN == envelope@.len(),
            Err(e) => open_envelope_spec(key@, envelope@) == Err::<Seq<u8>, ConfigError>(e),
        },
{
    if envelope.len() < NONCE_LEN + TAG_LEN {
        return Err(ConfigError::AuthFailed);
    }
    let nonce = slice_subrange(envelope.as_slice(), 0, NONCE_LEN);
    let body = slice_subrange(envelope.as_slice(), NONCE_LEN, envelope.len());
    match chacha20_poly1305_open(key.bytes.as_slice(), nonce, body) {
        Some(plaintext) => Ok(plaintext),
        None => Err(ConfigError::AuthFailed),
    }
}

/// What reading a sealed file gives: what its envelope opens to. A file
/// that is not there cannot be read.
pub open spec fn encrypted_read_spec(key: Seq<u8>, sealed: Option<Seq<u8>>) -> Result<
    Seq<u8>,
    ConfigError,
> {
    match sealed {
        None => Err(ConfigError::IoError),
        Some(envelope) => open_envelope_spec(key, envelope),
    }
}

/// Seals `plaintext` under `key` and stores the envelope as `file`, which
/// must be one of the files that are kept sealed: no other file is written.
/// What is stored reads back as the plaintext under the same key. Where
/// sealing fails nothing is stored.
pub fn encrypted_write(plaintext: &Vec<u8>, key: &AeadKey, dir: &mut ConfigDir, file: ConfigFile) -> (r:
    Result<(), ConfigError>)
    ensures
        match r {
            Ok(_) => file.is_encrypted_spec() && final(dir)@.contains_key(file) && final(dir)@
                == old(dir)@.insert(file, final(dir)@[file]) && final(dir)@[file].len()
                == NONCE_LEN + plaintext@.len() + TAG_LEN && encrypted_read_spec(
                key@,
                contents(final(dir)@, file),
            ) == Ok::<Seq<u8>, ConfigError>(plaintext@),
            Err(e) => final(dir)@ == old(dir)@ && (e == ConfigError::IoError
                <==> !file.is_encrypted_spec()) && (e == ConfigError::IoError || e
                == ConfigError::CryptoError),
        },
{
    if !file.is_encrypted() {
        return Err(ConfigError::IoError);
    }
    match encrypt(plaintext, key) {
        Ok(envelope) => {
            dir.put(file, envelope);
            Ok(())
        },
        Err(e) => Err(e),
    }
}

/// Opens the envelope that is stored as `file`.
pub fn encrypted_read(key: &AeadKey, dir: &ConfigDir, file: ConfigFile) -> (r: Result<
    Vec<u8>,
    ConfigError,
>)
    ensures
        match r {
            Ok(plaintext) => encrypted_read_spec(key@, contents(dir@, file)) == Ok::<
                Seq<u8>,
                ConfigError,
            >(plaintext@) && plaintext@.len() + NONCE_LEN + TAG_LEN == dir@[file].len(),
            Err(e) => encrypted_read_spec(key@, contents(dir@, file)) == Err::<
                Seq<u8>,
                ConfigError,
            >(e),
        },
{
    match dir.get(file) {
        Some(envelope) => decrypt(envelope, key),
        None => Err(ConfigError::IoError),
    }
}

} // verus!
