use aes_gcm::aead::{Aead, KeyInit};
use rand::RngCore;
use vstd::prelude::*;
use vstd::utf8::*;
use crate::encoding::{base64_decode, base64_decoded, base64_encode, base64_fits, base64_text};
use crate::error::VaultError;

verus! {

/// Argon2 memory cost, in KiB blocks.
pub const ARGON2_M_COST: u32 = 65536;
/// Argon2 number of passes.
pub const ARGON2_T_COST: u32 = 3;
/// Argon2 degree of parallelism.
pub const ARGON2_P_COST: u32 = 1;
/// The longest plaintext AES-GCM accepts (2^36 bytes).
pub const AES_GCM_MAX_PLAINTEXT: u64 = 68719476736;

#[verifier::external_type_specification]
#[verifier::external_body]
pub struct ExArgon2Error(argon2::Error);

#[verifier::external_type_specification]
#[verifier::external_body]
pub struct ExAeadError(aes_gcm::Error);

/// The 32-byte key that Argon2id (version 0x13) derives from `password`
/// and `salt` with the given memory, time and parallelism costs.
pub uninterp spec fn argon2id_key(m_cost: u32, t_cost: u32, p_cost: u32, password: Seq<u8>, salt: Seq<u8>) -> Seq<u8>;

/// The AES-256-GCM ciphertext (with its 16-byte tag appended) of
/// `plaintext` under `key` and `nonce`, with no associated data.
pub uninterp spec fn aes256gcm_seal(key: Seq<u8>, nonce: Seq<u8>, plaintext: Seq<u8>) -> Seq<u8>;

/// What AES-256-GCM authenticated decryption of `ciphertext` under `key`
/// and `nonce` gives: the plaintext, or `None` where the tag does not match.
pub uninterp spec fn aes256gcm_open(key: Seq<u8>, nonce: Seq<u8>, ciphertext: Seq<u8>) -> Option<Seq<u8>>;

/// Whether Argon2 accepts these costs (from `argon2::Params::new`).
pub open spec fn argon2_costs_valid(m_cost: u32, t_cost: u32, p_cost: u32) -> bool {
    &&& m_cost >= 8
    &&& m_cost >= 8 * p_cost
    &&& t_cost >= 1
    &&& 1 <= p_cost <= 0xFF_FFFF
}

/// Whether Argon2 accepts the lengths of a password and a salt.
pub open spec fn argon2_inputs_valid(password: Seq<u8>, salt: Seq<u8>) -> bool {
    &&& password.len() <= 0xFFFF_FFFF
    &&& 8 <= salt.len() <= 0xFFFF_FFFF
}

/// Wraps `argon2::Params::new`, `argon2::Argon2::new` (Argon2id, version
/// 0x13) and `argon2::Argon2::hash_password_into` with a 32-byte output.
///
/// Claims, from the crate's source: with costs that `Params::new` accepts
/// (required: for `p_cost` of `0x2000_0000` or more, `Params::new` computes
/// `p_cost * 8` in `u32` and panics on overflow before it checks the upper
/// bound), the call fails exactly when the password or salt has a length
/// that `verify_inputs` refuses; otherwise the key is `argon2id_key` of the
/// arguments.
#[verifier::external_body]
fn argon2id_hash(m_cost: u32, t_cost: u32, p_cost: u32, password: &[u8], salt: &[u8]) -> (result: Result<[u8; 32], argon2::Error>)
    requires
        argon2_costs_valid(m_cost, t_cost, p_cost),
    ensures
        match result {
            Ok(key) => {
                &&& argon2_inputs_valid(password@, salt@)
                &&& key@ == argon2id_key(m_cost, t_cost, p_cost, password@, salt@)
            },
            Err(_) => !argon2_inputs_valid(password@, salt@),
        },
{
    let params = argon2::Params::new(m_cost, t_cost, p_cost, Some(32))?;
    let argon = argon2::Argon2::new(argon2::Algorithm::Argon2id, argon2::Version::V0x13, params);
    let mut key = [0u8; 32];
    argon.hash_password_into(password, salt, &mut key)?;
    Ok(key)
}

/// Wraps `aes_gcm::Aes256Gcm::new` and `Aead::encrypt` (no associated data).
///
/// Claims, from the source of `aes-gcm` and `aead`: the call fails exactly
/// when the plaintext is longer than 2^36 bytes; otherwise it returns
/// `aes256gcm_seal` of the arguments, 16 bytes longer than the plaintext,
/// and decryption of it under the same key and nonce gives the plaintext
/// back (the correctness of the AEAD).
#[verifier::external_body]
fn aes256gcm_encrypt(key: &[u8; 32], nonce: &[u8; 12], plaintext: &[u8]) -> (result: Result<Vec<u8>, aes_gcm::Error>)
    ensures
        result is Ok <==> plaintext@.len() <= AES_GCM_MAX_PLAINTEXT,
        result matches Ok(c) ==> c@ == aes256gcm_seal(key@, nonce@, plaintext@),
        result matches Ok(c) ==> c@.len() == plaintext@.len() + 16,
        result matches Ok(c) ==> aes256gcm_open(key@, nonce@, c@) == Some(plaintext@),
{
    aes_gcm::Aes256Gcm::new(key.into()).encrypt(aes_gcm::Nonce::from_slice(nonce), plaintext)
}

/// Wraps `aes_gcm::Aes256Gcm::new` and `Aead::decrypt` (no associated data).
///
/// Claims: the call succeeds exactly when `aes256gcm_open` of the arguments
/// is `Some`, and then returns that plaintext, which is the ciphertext
/// without its 16-byte tag (`aead`'s `decrypt_in_place` truncates it).
#[verifier::external_body]
fn aes256gcm_decrypt(key: &[u8; 32], nonce: &[u8], ciphertext: &[u8]) -> (result: Result<Vec<u8>, aes_gcm::Error>)
    requires
        nonce@.len() == 12,
    ensures
        match result {
            Ok(p) => aes256gcm_open(key@, nonce@, ciphertext@) == Some(p@) && p@.len() + 16 == ciphertext@.len(),
            Err(_) => aes256gcm_open(key@, nonce@, ciphertext@) is None,
        },
{
    aes_gcm::Aes256Gcm::new(key.into()).decrypt(aes_gcm::Nonce::from_slice(nonce), ciphertext)
}

/// Wraps `rand::rngs::OsRng.fill_bytes`, which fills `buf` from the
/// operating system's random source. Nothing is stated of the bytes; the
/// call panics if the operating system cannot supply randomness.
#[verifier::external_body]
fn fill_random<const N: usize>(buf: &mut [u8; N])
{
    rand::rngs::OsRng.fill_bytes(buf)
}

/// `N` bytes from the operating system's random source.
pub fn random<const N: usize>() -> (out: [u8; N])
    ensures
        out@.len() == N,
{
    let mut out = [0u8; N];
    fill_random(&mut out);
    out
}

/// A sealed payload as it is stored: the nonce and the ciphertext (tag
/// included), each in standard padded base64.
#[derive(Debug)]
pub struct CipherBlob {
    pub nonce: String,
    pub ciphertext: String,
}

/// The outcome of deriving the vault key from `password` and `salt`:
/// the Argon2 refusals first (password length, then salt length, as
/// `argon2` checks them), else the Argon2id key with the vault's costs.
pub open spec fn key_derivation(password: Seq<char>, salt: Seq<u8>) -> Result<Seq<u8>, VaultError> {
    let bytes = encode_utf8(password);
    if bytes.len() > 0xFFFF_FFFF {
        Err(VaultError::PasswordTooLongForKdf)
    } else if salt.len() < 8 {
        Err(VaultError::SaltTooShort)
    } else if salt.len() > 0xFFFF_FFFF {
        Err(VaultError::SaltTooLong)
    } else {
        Ok(argon2id_key(ARGON2_M_COST, ARGON2_T_COST, ARGON2_P_COST, bytes, salt))
    }
}

/// A key result seen as a sequence of bytes.
pub open spec fn key_view(r: Result<[u8; 32], VaultError>) -> Result<Seq<u8>, VaultError> {
    match r {
        Ok(k) => Ok(k@),
        Err(e) => Err(e),
    }
}

/// A byte result seen as a sequence of bytes.
pub open spec fn bytes_view(r: Result<Vec<u8>, VaultError>) -> Result<Seq<u8>, VaultError> {
    match r {
        Ok(v) => Ok(v@),
        Err(e) => Err(e),
    }
}

/// Derives the 32-byte vault key from a password and a salt with
/// Argon2id (64 MiB, 3 passes, 1 lane).
pub fn derive_key(password: &str, salt: &[u8]) -> (result: Result<[u8; 32], VaultError>)
    ensures
        key_view(result) == key_derivation(password@, salt@),
        result is Ok <==> encode_utf8(password@).len() <= 0xFFFF_FFFF && 8 <= salt@.len() <= 0xFFFF_FFFF,
        result matches Ok(k) ==> k@ == argon2id_key(65536, 3, 1, encode_utf8(password@), salt@),
{
    let bytes = password.as_bytes();
    match argon2id_hash(ARGON2_M_COST, ARGON2_T_COST, ARGON2_P_COST, bytes, salt) {
        Ok(key) => Ok(key),
        Err(_) => {
            if bytes.len() > 0xFFFF_FFFF {
                Err(VaultError::PasswordTooLongForKdf)
            } else if salt.len() < 8 {
                Err(VaultError::SaltTooShort)
            } else {
                Err(VaultError::SaltTooLong)
            }
        },
    }
}

/// Whether `text` is what base64 encoding produces in shape: ASCII
/// characters only, in whole groups of four.
pub open spec fn base64_shaped(text: Seq<char>) -> bool {
    is_ascii_chars(text) && text.len() % 4 == 0
}

/// The stored texts of `plaintext` sealed under `key` with `nonce`.
pub open spec fn sealed_texts(key: Seq<u8>, nonce: Seq<u8>, plaintext: Seq<u8>) -> (Seq<char>, Seq<char>) {
    (base64_text(nonce), base64_text(aes256gcm_seal(key, nonce, plaintext)))
}

/// What decrypting a stored blob gives under `key`: the nonce text is
/// decoded first, then the ciphertext text, then the nonce length is
/// checked, then AES-256-GCM authenticates and decrypts.
pub open spec fn decryption(key: Seq<u8>, nonce_text: Seq<char>, ciphertext_text: Seq<char>) -> Result<Seq<u8>, VaultError> {
    match base64_decoded(encode_utf8(nonce_text)) {
        None => Err(VaultError::CorruptNonce),
        Some(nonce) => match base64_decoded(encode_utf8(ciphertext_text)) {
            None => Err(VaultError::CorruptCiphertext),
            Some(ciphertext) => if nonce.len() != 12 {
                Err(VaultError::CorruptNonce)
            } else {
                match aes256gcm_open(key, nonce, ciphertext) {
                    Some(plaintext) => Ok(plaintext),
                    None => Err(VaultError::DecryptionFailed),
                }
            },
        },
    }
}

/// Whether stored texts decode to a 12-byte nonce and to a ciphertext 16
/// bytes (the tag) longer than a plaintext of `plaintext_len` bytes.
pub open spec fn sealed_lengths(nonce_text: Seq<char>, ciphertext_text: Seq<char>, plaintext_len: nat) -> bool {
    &&& base64_decoded(encode_utf8(nonce_text)) matches Some(nonce) && nonce.len() == 12
    &&& base64_decoded(encode_utf8(ciphertext_text)) matches Some(c) && c.len() == plaintext_len + 16
}

/// Whether the stored texts decode to a 12-byte nonce and a ciphertext that
/// AES-256-GCM, keyed by `key` itself, authenticates and opens to
/// `plaintext`.
pub open spec fn opens_under(key: Seq<u8>, nonce_text: Seq<char>, ciphertext_text: Seq<char>, plaintext: Seq<u8>) -> bool {
    exists|nonce: Seq<u8>, ciphertext: Seq<u8>| {
        &&& base64_decoded(encode_utf8(nonce_text)) == Some(nonce)
        &&& nonce.len() == 12
        &&& base64_decoded(encode_utf8(ciphertext_text)) == Some(ciphertext)
        &&& #[trigger] aes256gcm_open(key, nonce, ciphertext) == Some(plaintext)
    }
}

/// Derivation gives exactly the Argon2id key with 64 MiB, 3 passes and 1
/// lane of the password's UTF-8 bytes and the salt, and fails exactly where
/// Argon2 refuses their lengths.
pub proof fn lemma_key_derivation_is_argon2id(password: Seq<char>, salt: Seq<u8>)
    ensures
        key_derivation(password, salt) is Ok <==> encode_utf8(password).len() <= 0xFFFF_FFFF && 8 <= salt.len() <= 0xFFFF_FFFF,
        key_derivation(password, salt) matches Ok(k) ==> k == argon2id_key(65536, 3, 1, encode_utf8(password), salt),
{
}

/// Sealing writes the base64 of the nonce and the base64 of the AES-256-GCM
/// seal of the plaintext under the given key and nonce.
pub proof fn lemma_sealed_texts_are_the_seal_under_the_key(key: Seq<u8>, nonce: Seq<u8>, plaintext: Seq<u8>)
    ensures
        sealed_texts(key, nonce, plaintext).0 == base64_text(nonce),
        sealed_texts(key, nonce, plaintext).1 == base64_text(aes256gcm_seal(key, nonce, plaintext)),
{
}

/// Decryption succeeds exactly when the stored texts open under the given
/// key itself, and then gives what AES-256-GCM opens them to.
pub proof fn lemma_decryption_is_opening_under_the_key(key: Seq<u8>, nonce_text: Seq<char>, ciphertext_text: Seq<char>)
    ensures
        decryption(key, nonce_text, ciphertext_text) matches Ok(p) ==> opens_under(key, nonce_text, ciphertext_text, p),
        forall|p: Seq<u8>| opens_under(key, nonce_text, ciphertext_text, p)
            ==> decryption(key, nonce_text, ciphertext_text) == Ok::<Seq<u8>, VaultError>(p),
{
    if let Ok(p) = decryption(key, nonce_text, ciphertext_text) {
        let n = base64_decoded(encode_utf8(nonce_text))->0;
        let c = base64_decoded(encode_utf8(ciphertext_text))->0;
        assert(aes256gcm_open(key, n, c) == Some(p));
    }
}

/// Whether the sealed texts of a plaintext of this length fit in memory
/// (their base64 length must fit in `usize`).
pub open spec fn sealable(len: nat) -> bool {
    len <= AES_GCM_MAX_PLAINTEXT ==> base64_fits(len + 16)
}

/// Seals `plaintext` under `key` with the given nonce.
pub fn encrypt_with_nonce(key: &[u8; 32], nonce: &[u8; 12], plaintext: &[u8]) -> (result: Result<CipherBlob, VaultError>)
    requires
        sealable(plaintext@.len()),
    ensures
        result is Ok <==> plaintext@.len() <= AES_GCM_MAX_PLAINTEXT,
        result matches Err(e) ==> e == VaultError::EncryptionFailed,
        result matches Ok(blob) ==> (blob.nonce@, blob.ciphertext@) == sealed_texts(key@, nonce@, plaintext@),
        result matches Ok(blob) ==> blob.nonce@ == base64_text(nonce@),
        result matches Ok(blob) ==> blob.ciphertext@ == base64_text(aes256gcm_seal(key@, nonce@, plaintext@)),
        result matches Ok(blob) ==> base64_shaped(blob.ciphertext@),
        result matches Ok(blob) ==> sealed_lengths(blob.nonce@, blob.ciphertext@, plaintext@.len()),
        result matches Ok(blob) ==> decryption(key@, blob.nonce@, blob.ciphertext@) == Ok::<Seq<u8>, VaultError>(plaintext@),
{
    let sealed = match aes256gcm_encrypt(key, nonce, plaintext) {
        Ok(c) => c,
        Err(_) => return Err(VaultError::EncryptionFailed),
    };
    let nonce_text = base64_encode(nonce);
    let ciphertext_text = base64_encode(sealed.as_slice());
    Ok(CipherBlob { nonce: nonce_text, ciphertext: ciphertext_text })
}

/// Seals `plaintext` under `key` with a fresh random nonce.
pub fn encrypt(key: &[u8; 32], plaintext: &[u8]) -> (result: Result<CipherBlob, VaultError>)
    requires
        sealable(plaintext@.len()),
    ensures
        result is Ok <==> plaintext@.len() <= AES_GCM_MAX_PLAINTEXT,
        result matches Err(e) ==> e == VaultError::EncryptionFailed,
        result matches Ok(blob) ==> exists|nonce: Seq<u8>| nonce.len() == 12
            && (blob.nonce@, blob.ciphertext@) == #[trigger] sealed_texts(key@, nonce, plaintext@),
        result matches Ok(blob) ==> exists|nonce: Seq<u8>| nonce.len() == 12
            && blob.nonce@ == base64_text(nonce)
            && blob.ciphertext@ == #[trigger] base64_text(aes256gcm_seal(key@, nonce, plaintext@)),
        result matches Ok(blob) ==> base64_shaped(blob.ciphertext@),
        result matches Ok(blob) ==> sealed_lengths(blob.nonce@, blob.ciphertext@, plaintext@.len()),
        result matches Ok(blob) ==> decryption(key@, blob.nonce@, blob.ciphertext@) == Ok::<Seq<u8>, VaultError>(plaintext@),
{
    let nonce = random::<12>();
    encrypt_with_nonce(key, &nonce, plaintext)
}

/// Opens a stored blob under `key`.
pub fn decrypt(key: &[u8; 32], blob: &CipherBlob) -> (result: Result<Vec<u8>, VaultError>)
    ensures
        bytes_view(result) == decryption(key@, blob.nonce@, blob.ciphertext@),
        result matches Ok(p) ==> sealable(p@.len()),
        result matches Ok(p) ==> opens_under(key@, blob.nonce@, blob.ciphertext@, p@),
        (exists|p: Seq<u8>| opens_under(key@, blob.nonce@, blob.ciphertext@, p)) ==> result is Ok,
{
    let nonce = match base64_decode(blob.nonce.as_str().as_bytes()) {
        Ok(n) => n,
        Err(_) => return Err(VaultError::CorruptNonce),
    };
    let ciphertext_text = blob.ciphertext.as_str().as_bytes();
    let ghost text_len = ciphertext_text@.len();
    assert(text_len == ciphertext_text.len());
    let ciphertext = match base64_decode(ciphertext_text) {
        Ok(c) => c,
        Err(_) => return Err(VaultError::CorruptCiphertext),
    };
    if nonce.len() != 12 {
        return Err(VaultError::CorruptNonce);
    }
    match aes256gcm_decrypt(key, nonce.as_slice(), ciphertext.as_slice()) {
        Ok(plaintext) => Ok(plaintext),
        Err(_) => Err(VaultError::DecryptionFailed),
    }
}

/// Tampering with a stored ciphertext by appending one ASCII character is
/// always rejected: a base64-shaped ciphertext text (which `encrypt`
/// produces) followed by one more ASCII character never decrypts, under
/// any key and with any nonce text.
pub proof fn lemma_appended_character_rejected(key: Seq<u8>, nonce_text: Seq<char>, ciphertext_text: Seq<char>, c: char)
    requires
        base64_shaped(ciphertext_text),
        '\0' <= c <= '\u{7f}',
    ensures
        decryption(key, nonce_text, ciphertext_text.push(c)) is Err,
{
    let tampered = ciphertext_text.push(c);
    assert(is_ascii_chars(tampered)) by {
        assert forall|i| 0 <= i < tampered.len() implies '\0' <= #[trigger] tampered[i] <= '\u{7f}' by {
            if i < ciphertext_text.len() {
                assert(tampered[i] == ciphertext_text[i]);
            }
        }
    }
    is_ascii_chars_encode_utf8(tampered);
    assert(encode_utf8(tampered).len() % 4 == 1);
}

} // verus!
