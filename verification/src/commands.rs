use vstd::prelude::*;
use vstd::utf8::*;
use crate::crypto::{aes256gcm_seal, argon2id_key, decrypt, decryption, derive_key, encrypt, key_derivation, key_view, bytes_view, random, sealable, CipherBlob, AES_GCM_MAX_PLAINTEXT};
use crate::encoding::{base64_decode, base64_decoded, base64_encode, base64_text};
use crate::error::VaultError;
use crate::session::zeroize_text;

verus! {

/// The fewest bytes a master password may have.
pub const MIN_MASTER_PASSWORD_LEN: usize = 10;
/// The fewest bytes a backup password may have.
pub const MIN_BACKUP_PASSWORD_LEN: usize = 6;

/// The bytes sealed under the vault key as the key check
/// (`vault-key-check-v1`).
pub open spec fn check_text() -> Seq<u8> {
    seq![118u8, 97, 117, 108, 116, 45, 107, 101, 121, 45, 99, 104, 101, 99, 107, 45, 118, 49]
}

/// The check text, as bytes.
pub fn check_text_bytes() -> (text: Vec<u8>)
    ensures
        text@ == check_text(),
{
    vec![118u8, 97, 117, 108, 116, 45, 107, 101, 121, 45, 99, 104, 101, 99, 107, 45, 118, 49]
}

/// The marker that a backup file carries.
pub open spec fn export_magic() -> Seq<char> {
    "CODEVERTA_VAULT_BACKUP_V1"@
}

/// The backup marker, as a string.
pub fn export_magic_text() -> (text: String)
    ensures
        text@ == export_magic(),
{
    "CODEVERTA_VAULT_BACKUP_V1".to_owned()
}

/// Whether two byte sequences are equal.
fn bytes_equal(a: &[u8], b: &[u8]) -> (equal: bool)
    ensures
        equal == (a@ == b@),
{
    if a.len() != b.len() {
        return false;
    }
    let mut i: usize = 0;
    while i < a.len()
        invariant
            a@.len() == b@.len(),
            i <= a@.len(),
            forall|j: int| 0 <= j < i ==> a@[j] == b@[j],
        decreases a@.len() - i,
    {
        if a[i] != b[i] {
            return false;
        }
        i = i + 1;
    }
    assert(a@ =~= b@);
    true
}

/// Whether a plaintext of `len` bytes can be sealed without its stored
/// text outgrowing `usize`.
pub fn can_seal(len: usize) -> (ok: bool)
    ensures
        ok == sealable(len as nat),
{
    if (len as u128) > (AES_GCM_MAX_PLAINTEXT as u128) {
        true
    } else {
        (len as u128 + 18) / 3 * 4 <= usize::MAX as u128
    }
}

/// Seals the check text under `key`.
pub fn seal_check(key: &[u8; 32]) -> (result: Result<CipherBlob, VaultError>)
    ensures
        result matches Ok(blob) && decryption(key@, blob.nonce@, blob.ciphertext@) == Ok::<Seq<u8>, VaultError>(check_text()),
{
    let text = check_text_bytes();
    encrypt(key, text.as_slice())
}

/// The byte length of a password.
pub open spec fn byte_len(password: Seq<char>) -> nat {
    encode_utf8(password).len()
}

/// Refuses a master password of fewer than 10 bytes.
pub fn check_master_password(password: &str) -> (result: Result<(), VaultError>)
    ensures
        result is Err <==> byte_len(password@) < MIN_MASTER_PASSWORD_LEN,
        result matches Err(e) ==> e == VaultError::MasterPasswordTooShort,
{
    if password.as_bytes().len() < MIN_MASTER_PASSWORD_LEN {
        Err(VaultError::MasterPasswordTooShort)
    } else {
        Ok(())
    }
}

/// What a new vault stores and holds: its salt and key check, and the key
/// to keep in the session.
#[derive(Debug)]
pub struct NewVault {
    pub salt: [u8; 16],
    pub key: [u8; 32],
    pub check: CipherBlob,
}

/// Why creating a vault is refused, if it is: a short password first, then
/// an existing vault, then a password Argon2 cannot take.
pub open spec fn create_refusal(password: Seq<char>, initialized: bool) -> Option<VaultError> {
    if byte_len(password) < MIN_MASTER_PASSWORD_LEN {
        Some(VaultError::MasterPasswordTooShort)
    } else if initialized {
        Some(VaultError::AlreadyCreated)
    } else if byte_len(password) > 0xFFFF_FFFF {
        Some(VaultError::PasswordTooLongForKdf)
    } else {
        None
    }
}

/// Creates a vault: draws a fresh 16-byte salt, derives the key from the
/// password, and seals the check text under it.
pub fn create_vault(password: &str, initialized: bool) -> (result: Result<NewVault, VaultError>)
    ensures
        match result {
            Ok(v) => {
                &&& create_refusal(password@, initialized) is None
                &&& key_derivation(password@, v.salt@) == Ok::<Seq<u8>, VaultError>(v.key@)
                &&& decryption(v.key@, v.check.nonce@, v.check.ciphertext@) == Ok::<Seq<u8>, VaultError>(check_text())
            },
            Err(e) => create_refusal(password@, initialized) == Some(e),
        },
{
    check_master_password(password)?;
    if initialized {
        return Err(VaultError::AlreadyCreated);
    }
    let salt = random::<16>();
    let key = derive_key(password, &salt)?;
    let check = seal_check(&key)?;
    Ok(NewVault { salt, key, check })
}

/// A stored byte field seen as a sequence.
pub open spec fn stored_bytes(field: Option<Vec<u8>>) -> Option<Seq<u8>> {
    match field {
        Some(v) => Some(v@),
        None => None,
    }
}

/// A stored key check: absent, present but unreadable, or a blob, seen as
/// its two texts.
pub open spec fn stored_check(field: Option<Option<CipherBlob>>) -> Option<Option<(Seq<char>, Seq<char>)>> {
    match field {
        None => None,
        Some(None) => Some(None),
        Some(Some(b)) => Some(Some((b.nonce@, b.ciphertext@))),
    }
}

/// What unlocking gives: refusals in the order they are met (no vault, no
/// key check, a password or salt Argon2 refuses, an unreadable key check,
/// a key check that does not decrypt, one that decrypts to anything but
/// the check text), else the derived key.
pub open spec fn unlock_outcome(
    password: Seq<char>,
    salt: Option<Seq<u8>>,
    check: Option<Option<(Seq<char>, Seq<char>)>>,
) -> Result<Seq<u8>, VaultError> {
    match salt {
        None => Err(VaultError::NotCreated),
        Some(salt) => match check {
            None => Err(VaultError::MetadataIncomplete),
            Some(parsed) => match key_derivation(password, salt) {
                Err(e) => Err(e),
                Ok(key) => match parsed {
                    None => Err(VaultError::MetadataCorrupt),
                    Some((nonce_text, ciphertext_text)) => match decryption(key, nonce_text, ciphertext_text) {
                        Err(e) => Err(e),
                        Ok(p) => if p == check_text() {
                            Ok(key)
                        } else {
                            Err(VaultError::WrongMasterPassword)
                        },
                    },
                },
            },
        },
    }
}

/// Unlocks a vault from what it stores: its salt and its key check (absent,
/// unreadable, or read). The password is overwritten once the key is
/// derived.
pub fn unlock_vault(password: String, salt: Option<Vec<u8>>, check: Option<Option<CipherBlob>>) -> (result: Result<[u8; 32], VaultError>)
    ensures
        key_view(result) == unlock_outcome(password@, stored_bytes(salt), stored_check(check)),
{
    let mut password = password;
    let salt = match salt {
        Some(s) => s,
        None => return Err(VaultError::NotCreated),
    };
    let parsed = match check {
        Some(p) => p,
        None => return Err(VaultError::MetadataIncomplete),
    };
    let derived = derive_key(password.as_str(), salt.as_slice());
    zeroize_text(&mut password);
    let key = derived?;
    let blob = match parsed {
        Some(b) => b,
        None => return Err(VaultError::MetadataCorrupt),
    };
    let plain = decrypt(&key, &blob)?;
    let expected = check_text_bytes();
    if !bytes_equal(plain.as_slice(), expected.as_slice()) {
        return Err(VaultError::WrongMasterPassword);
    }
    Ok(key)
}

/// A vault created with a password unlocks with that same password, to the
/// key it was created with: the salt and key check that `create_vault`
/// returns, once stored and read back, make `unlock_vault` give its key.
pub proof fn lemma_create_then_unlock(
    password: Seq<char>,
    salt: Seq<u8>,
    key: Seq<u8>,
    nonce_text: Seq<char>,
    ciphertext_text: Seq<char>,
)
    requires
        key_derivation(password, salt) == Ok::<Seq<u8>, VaultError>(key),
        decryption(key, nonce_text, ciphertext_text) == Ok::<Seq<u8>, VaultError>(check_text()),
    ensures
        unlock_outcome(password, Some(salt), Some(Some((nonce_text, ciphertext_text))))
            == Ok::<Seq<u8>, VaultError>(key),
{
}

/// Unlocking never hands out a key that was not proved: whenever unlocking
/// succeeds, the stored salt and the password derive that key, and the
/// stored key check opens under it to exactly the check text.
pub proof fn lemma_unlocked_key_opens_check(
    password: Seq<char>,
    salt: Option<Seq<u8>>,
    check: Option<Option<(Seq<char>, Seq<char>)>>,
    key: Seq<u8>,
)
    requires
        unlock_outcome(password, salt, check) == Ok::<Seq<u8>, VaultError>(key),
    ensures
        salt matches Some(s) && key_derivation(password, s) == Ok::<Seq<u8>, VaultError>(key),
        check matches Some(Some((nonce_text, ciphertext_text)))
            && decryption(key, nonce_text, ciphertext_text) == Ok::<Seq<u8>, VaultError>(check_text()),
{
}

/// Refuses a replacement master password of fewer than 10 bytes.
pub fn check_new_master_password(password: &str) -> (result: Result<(), VaultError>)
    ensures
        result is Err <==> byte_len(password@) < MIN_MASTER_PASSWORD_LEN,
        result matches Err(e) ==> e == VaultError::NewMasterPasswordTooShort,
{
    if password.as_bytes().len() < MIN_MASTER_PASSWORD_LEN {
        Err(VaultError::NewMasterPasswordTooShort)
    } else {
        Ok(())
    }
}

/// What changing the master password keeps for the re-keying that follows:
/// the current key, and the new salt and key.
#[derive(Debug)]
pub struct PasswordChange {
    pub old_key: [u8; 32],
    pub new_salt: [u8; 16],
    pub new_key: [u8; 32],
}

/// Why a change of master password is refused, if it is, in the order the
/// checks are made: a short new password, no vault, a current password or
/// salt Argon2 refuses, a missing or unreadable key check, a key check the
/// current key does not open, a new password Argon2 cannot take.
pub open spec fn change_refusal(
    current: Seq<char>,
    new_password: Seq<char>,
    salt: Option<Seq<u8>>,
    check: Option<Option<(Seq<char>, Seq<char>)>>,
) -> Option<VaultError> {
    if byte_len(new_password) < MIN_MASTER_PASSWORD_LEN {
        Some(VaultError::NewMasterPasswordTooShort)
    } else {
        match salt {
            None => Some(VaultError::NotCreated),
            Some(salt) => match key_derivation(current, salt) {
                Err(e) => Some(e),
                Ok(old_key) => match check {
                    None => Some(VaultError::ChangeMetadataIncomplete),
                    Some(None) => Some(VaultError::ChangeMetadataCorrupt),
                    Some(Some((nonce_text, ciphertext_text))) =>
                        if decryption(old_key, nonce_text, ciphertext_text) is Err {
                            Some(VaultError::CurrentPasswordWrong)
                        } else if byte_len(new_password) > 0xFFFF_FFFF {
                            Some(VaultError::PasswordTooLongForKdf)
                        } else {
                            None
                        },
                },
            },
        }
    }
}

/// Begins a change of master password: checks the new password, derives
/// the current key from the stored salt and proves it on the stored key
/// check, then draws a new salt and derives the new key. The current
/// password is overwritten once its key is derived.
pub fn change_master_password(
    current: String,
    new_password: &str,
    salt: Option<Vec<u8>>,
    check: Option<Option<CipherBlob>>,
) -> (result: Result<PasswordChange, VaultError>)
    ensures
        match result {
            Ok(c) => {
                &&& change_refusal(current@, new_password@, stored_bytes(salt), stored_check(check)) is None
                &&& stored_bytes(salt) matches Some(s)
                    && key_derivation(current@, s) == Ok::<Seq<u8>, VaultError>(c.old_key@)
                &&& key_derivation(new_password@, c.new_salt@) == Ok::<Seq<u8>, VaultError>(c.new_key@)
            },
            Err(e) => change_refusal(current@, new_password@, stored_bytes(salt), stored_check(check)) == Some(e),
        },
{
    let mut current = current;
    if let Err(e) = check_new_master_password(new_password) {
        return Err(e);
    }
    let salt = match salt {
        Some(s) => s,
        None => return Err(VaultError::NotCreated),
    };
    let derived = derive_key(current.as_str(), salt.as_slice());
    zeroize_text(&mut current);
    let old_key = derived?;
    let blob = match check {
        None => return Err(VaultError::ChangeMetadataIncomplete),
        Some(None) => return Err(VaultError::ChangeMetadataCorrupt),
        Some(Some(b)) => b,
    };
    if decrypt(&old_key, &blob).is_err() {
        return Err(VaultError::CurrentPasswordWrong);
    }
    let new_salt = random::<16>();
    let new_key = derive_key(new_password, &new_salt)?;
    Ok(PasswordChange { old_key, new_salt, new_key })
}

/// A stored row as its two texts, or `None` where it could not be read as
/// a blob.
pub open spec fn stored_row(row: Option<CipherBlob>) -> Option<(Seq<char>, Seq<char>)> {
    match row {
        Some(b) => Some((b.nonce@, b.ciphertext@)),
        None => None,
    }
}

/// Why re-keying a stored row is refused, if it is: an unreadable row,
/// then what opening it under the old key refuses, then a plaintext too
/// long for AES-GCM to seal again.
pub open spec fn rekey_failure(old_key: Seq<u8>, row: Option<(Seq<char>, Seq<char>)>) -> Option<VaultError> {
    match row {
        None => Some(VaultError::StoredItemCorrupt),
        Some((nonce_text, ciphertext_text)) => match decryption(old_key, nonce_text, ciphertext_text) {
            Err(e) => Some(e),
            Ok(p) => if p.len() > AES_GCM_MAX_PLAINTEXT {
                Some(VaultError::EncryptionFailed)
            } else {
                None
            },
        },
    }
}

/// Whether `new_row` holds under `new_key` exactly what `old_row` held
/// under `old_key`.
pub open spec fn rekeyed(old_key: Seq<u8>, old_row: (Seq<char>, Seq<char>), new_key: Seq<u8>, new_row: (Seq<char>, Seq<char>)) -> bool {
    decryption(new_key, new_row.0, new_row.1) == decryption(old_key, old_row.0, old_row.1)
}

/// Whether a stored row is a blob that opens under `key` to a plaintext
/// AES-GCM can seal again (at most 2^36 bytes).
pub open spec fn opens_within_aes_limit(key: Seq<u8>, row: Option<CipherBlob>) -> bool {
    row matches Some(blob) && decryption(key, blob.nonce@, blob.ciphertext@) matches Ok(p)
        && p.len() <= AES_GCM_MAX_PLAINTEXT
}

/// Re-keying refuses a row only where it cannot be read, where the old key
/// does not open it, or past AES-GCM's 2^36-byte limit: a row that opens
/// under the old key to at most 2^36 bytes is never refused, and an
/// unreadable row is refused as a damaged item.
pub proof fn lemma_rekey_refuses_only_unopenable_rows(old_key: Seq<u8>, row: (Seq<char>, Seq<char>), plaintext: Seq<u8>)
    ensures
        rekey_failure(old_key, None) == Some(VaultError::StoredItemCorrupt),
        decryption(old_key, row.0, row.1) == Ok::<Seq<u8>, VaultError>(plaintext) && plaintext.len() <= 0x10_0000_0000
            ==> rekey_failure(old_key, Some(row)) is None,
        decryption(old_key, row.0, row.1) matches Err(e) ==> rekey_failure(old_key, Some(row)) == Some(e),
{
}

/// Re-seals one stored item under the new key: an unreadable row is
/// refused, a row the old key does not open gives that error, and
/// otherwise the same plaintext is sealed under the new key (unless it is
/// too long for AES-GCM to seal again).
pub fn rekey_item(old_key: &[u8; 32], new_key: &[u8; 32], stored: Option<&CipherBlob>) -> (result: Result<CipherBlob, VaultError>)
    ensures
        match result {
            Ok(new_blob) => {
                &&& stored matches Some(blob)
                &&& rekey_failure(old_key@, Some((blob.nonce@, blob.ciphertext@))) is None
                &&& rekeyed(old_key@, (blob.nonce@, blob.ciphertext@), new_key@, (new_blob.nonce@, new_blob.ciphertext@))
            },
            Err(e) => rekey_failure(
                old_key@,
                match stored {
                    Some(blob) => Some((blob.nonce@, blob.ciphertext@)),
                    None => None,
                },
            ) == Some(e),
        },
        match stored {
            Some(blob) => match decryption(old_key@, blob.nonce@, blob.ciphertext@) {
                Ok(p) => p.len() <= AES_GCM_MAX_PLAINTEXT ==> (result matches Ok(new_blob)
                    && decryption(new_key@, new_blob.nonce@, new_blob.ciphertext@) == Ok::<Seq<u8>, VaultError>(p)),
                Err(e) => result == Err::<CipherBlob, VaultError>(e),
            },
            None => result == Err::<CipherBlob, VaultError>(VaultError::StoredItemCorrupt),
        },
{
    let blob = match stored {
        Some(b) => b,
        None => return Err(VaultError::StoredItemCorrupt),
    };
    match decrypt(old_key, blob) {
        Ok(plain) => encrypt(new_key, plain.as_slice()),
        Err(e) => Err(e),
    }
}

/// Re-seals every stored row under the new key, stopping at the first row
/// that is refused (the change of password is then abandoned as a whole).
pub fn rekey_rows(old_key: &[u8; 32], new_key: &[u8; 32], rows: &Vec<Option<CipherBlob>>) -> (result: Result<Vec<CipherBlob>, VaultError>)
    ensures
        match result {
            Ok(new_rows) => {
                &&& new_rows.len() == rows.len()
                &&& forall|i: int| 0 <= i < rows.len() ==> {
                    &&& rekey_failure(old_key@, #[trigger] stored_row(rows[i])) is None
                    &&& stored_row(rows[i]) matches Some(row)
                        && rekeyed(old_key@, row, new_key@, (new_rows[i].nonce@, new_rows[i].ciphertext@))
                }
            },
            Err(e) => exists|k: int| {
                &&& 0 <= k < rows.len()
                &&& rekey_failure(old_key@, #[trigger] stored_row(rows[k])) == Some(e)
                &&& forall|j: int| 0 <= j < k ==> rekey_failure(old_key@, #[trigger] stored_row(rows[j])) is None
            },
        },
        (forall|i: int| 0 <= i < rows.len() ==> opens_within_aes_limit(old_key@, #[trigger] rows[i])) ==> result is Ok,
{
    let mut out: Vec<CipherBlob> = Vec::new();
    let mut i: usize = 0;
    while i < rows.len()
        invariant
            i <= rows.len(),
            out.len() == i,
            forall|j: int| 0 <= j < i ==> {
                &&& rekey_failure(old_key@, #[trigger] stored_row(rows[j])) is None
                &&& stored_row(rows[j]) matches Some(row)
                    && rekeyed(old_key@, row, new_key@, (out[j].nonce@, out[j].ciphertext@))
            },
        decreases rows.len() - i,
    {
        let stored = match &rows[i] {
            Some(b) => Some(b),
            None => None,
        };
        match rekey_item(old_key, new_key, stored) {
            Ok(b) => {
                out.push(b);
            },
            Err(e) => {
                assert(rekey_failure(old_key@, stored_row(rows[i as int])) == Some(e));
                return Err(e);
            },
        }
        i = i + 1;
    }
    Ok(out)
}

/// Whether a vault is consistent under `key`: its key check opens to the
/// check text and every stored row opens.
pub open spec fn vault_consistent(key: Seq<u8>, check: (Seq<char>, Seq<char>), rows: Seq<(Seq<char>, Seq<char>)>) -> bool {
    &&& decryption(key, check.0, check.1) == Ok::<Seq<u8>, VaultError>(check_text())
    &&& forall|i: int| 0 <= i < rows.len() ==> decryption(key, #[trigger] rows[i].0, rows[i].1) is Ok
}

/// Changing the master password keeps the vault consistent: when the
/// change succeeds (`change_master_password` derives the new key from the
/// new password and salt, `rekey_rows` re-seals every row, `seal_check`
/// seals the new key check), the new key check and every re-sealed row
/// open under the new key, each row to exactly what it held before, and
/// the new password unlocks the vault to the new key.
pub proof fn lemma_password_change_keeps_vault_consistent(
    new_password: Seq<char>,
    new_salt: Seq<u8>,
    old_key: Seq<u8>,
    new_key: Seq<u8>,
    old_check: (Seq<char>, Seq<char>),
    new_check: (Seq<char>, Seq<char>),
    old_rows: Seq<(Seq<char>, Seq<char>)>,
    new_rows: Seq<(Seq<char>, Seq<char>)>,
)
    requires
        vault_consistent(old_key, old_check, old_rows),
        key_derivation(new_password, new_salt) == Ok::<Seq<u8>, VaultError>(new_key),
        decryption(new_key, new_check.0, new_check.1) == Ok::<Seq<u8>, VaultError>(check_text()),
        new_rows.len() == old_rows.len(),
        forall|i: int| 0 <= i < old_rows.len() ==> rekeyed(old_key, #[trigger] old_rows[i], new_key, new_rows[i]),
    ensures
        vault_consistent(new_key, new_check, new_rows),
        forall|i: int| 0 <= i < old_rows.len() ==>
            decryption(new_key, #[trigger] new_rows[i].0, new_rows[i].1) == decryption(old_key, old_rows[i].0, old_rows[i].1),
        unlock_outcome(new_password, Some(new_salt), Some(Some(new_check))) == Ok::<Seq<u8>, VaultError>(new_key),
{
    assert forall|i: int| 0 <= i < new_rows.len() implies decryption(new_key, #[trigger] new_rows[i].0, new_rows[i].1) is Ok by {
        assert(rekeyed(old_key, old_rows[i], new_key, new_rows[i]));
        assert(decryption(old_key, old_rows[i].0, old_rows[i].1) is Ok);
    }
    assert forall|i: int| 0 <= i < old_rows.len() implies
        decryption(new_key, #[trigger] new_rows[i].0, new_rows[i].1) == decryption(old_key, old_rows[i].0, old_rows[i].1) by {
        assert(rekeyed(old_key, old_rows[i], new_key, new_rows[i]));
    }
}

/// Opens one stored row when listing items: an unreadable row is refused,
/// otherwise the row is decrypted under `key`.
pub fn open_listed_item(key: &[u8; 32], stored: Option<CipherBlob>) -> (result: Result<Vec<u8>, VaultError>)
    ensures
        bytes_view(result) == listed_outcome(key@, stored_row(stored)),
{
    match stored {
        Some(blob) => decrypt(key, &blob),
        None => Err(VaultError::ItemCorrupt),
    }
}

/// What listing gives for one stored row under `key`.
pub open spec fn listed_outcome(key: Seq<u8>, row: Option<(Seq<char>, Seq<char>)>) -> Result<Seq<u8>, VaultError> {
    match row {
        None => Err(VaultError::ItemCorrupt),
        Some((nonce_text, ciphertext_text)) => decryption(key, nonce_text, ciphertext_text),
    }
}

/// A row that a save sealed under the vault key (`encrypt` states that it
/// opens to the saved plaintext) lists back to exactly that plaintext.
pub proof fn lemma_saved_row_lists_back(key: Seq<u8>, row: (Seq<char>, Seq<char>), plaintext: Seq<u8>)
    requires
        decryption(key, row.0, row.1) == Ok::<Seq<u8>, VaultError>(plaintext),
    ensures
        listed_outcome(key, Some(row)) == Ok::<Seq<u8>, VaultError>(plaintext),
{
}

/// Refuses a backup password of fewer than 6 bytes.
pub fn check_backup_password(password: &str) -> (result: Result<(), VaultError>)
    ensures
        result is Err <==> byte_len(password@) < MIN_BACKUP_PASSWORD_LEN,
        result matches Err(e) ==> e == VaultError::BackupPasswordTooShort,
{
    if password.as_bytes().len() < MIN_BACKUP_PASSWORD_LEN {
        Err(VaultError::BackupPasswordTooShort)
    } else {
        Ok(())
    }
}

/// A backup file: the marker, the salt of the backup key in base64, and
/// the sealed list of items.
#[derive(Debug)]
pub struct BackupFile {
    pub magic: String,
    pub salt: String,
    pub nonce: String,
    pub ciphertext: String,
}

/// What opening a backup gives with `password`: a file without the marker
/// is refused, then a salt that is not base64, then what Argon2 refuses,
/// else the decryption of the sealed items under the backup key.
pub open spec fn backup_opening(
    password: Seq<char>,
    magic: Seq<char>,
    salt_text: Seq<char>,
    nonce_text: Seq<char>,
    ciphertext_text: Seq<char>,
) -> Result<Seq<u8>, VaultError> {
    if magic != export_magic() {
        Err(VaultError::NotABackup)
    } else {
        match base64_decoded(encode_utf8(salt_text)) {
            None => Err(VaultError::BackupSaltCorrupt),
            Some(salt) => match key_derivation(password, salt) {
                Err(e) => Err(e),
                Ok(key) => decryption(key, nonce_text, ciphertext_text),
            },
        }
    }
}

/// Why sealing a backup is refused, if it is: a password Argon2 cannot
/// take, then a payload too long for AES-GCM.
pub open spec fn backup_refusal(password: Seq<char>, payload_len: nat) -> Option<VaultError> {
    if byte_len(password) > 0xFFFF_FFFF {
        Some(VaultError::PasswordTooLongForKdf)
    } else if payload_len > AES_GCM_MAX_PLAINTEXT {
        Some(VaultError::EncryptionFailed)
    } else {
        None
    }
}

/// Seals an exported payload (the items, serialised) into a backup file
/// under a key derived from `password` and a fresh 16-byte salt.
pub fn seal_backup(password: &str, payload: &[u8]) -> (result: Result<BackupFile, VaultError>)
    requires
        sealable(payload@.len()),
    ensures
        match result {
            Ok(b) => {
                &&& backup_refusal(password@, payload@.len()) is None
                &&& b.magic@ == export_magic()
                &&& exists|salt: Seq<u8>| salt.len() == 16 && b.salt@ == #[trigger] base64_text(salt)
                &&& backup_opening(password@, b.magic@, b.salt@, b.nonce@, b.ciphertext@)
                    == Ok::<Seq<u8>, VaultError>(payload@)
                &&& b.magic@ == "CODEVERTA_VAULT_BACKUP_V1"@
                &&& exists|salt: Seq<u8>, nonce: Seq<u8>| {
                    &&& salt.len() == 16
                    &&& nonce.len() == 12
                    &&& b.salt@ == base64_text(salt)
                    &&& b.nonce@ == base64_text(nonce)
                    &&& b.ciphertext@ == #[trigger] base64_text(
                        aes256gcm_seal(argon2id_key(65536, 3, 1, encode_utf8(password@), salt), nonce, payload@),
                    )
                    &&& decryption(argon2id_key(65536, 3, 1, encode_utf8(password@), salt), b.nonce@, b.ciphertext@)
                        == Ok::<Seq<u8>, VaultError>(payload@)
                }
            },
            Err(e) => backup_refusal(password@, payload@.len()) == Some(e),
        },
{
    let salt = random::<16>();
    let key = match derive_key(password, &salt) {
        Ok(k) => k,
        Err(e) => return Err(e),
    };
    let blob = match encrypt(&key, payload) {
        Ok(b) => b,
        Err(e) => return Err(e),
    };
    let salt_text = base64_encode(&salt);
    proof {
        let nonce = choose|nonce: Seq<u8>| nonce.len() == 12
            && blob.nonce@ == base64_text(nonce)
            && blob.ciphertext@ == #[trigger] base64_text(aes256gcm_seal(key@, nonce, payload@));
        assert(blob.ciphertext@ == base64_text(
            aes256gcm_seal(argon2id_key(65536, 3, 1, encode_utf8(password@), salt@), nonce, payload@),
        ));
    }
    Ok(BackupFile {
        magic: export_magic_text(),
        salt: salt_text,
        nonce: blob.nonce,
        ciphertext: blob.ciphertext,
    })
}

/// A backup file is read field by field: with the marker in place and a
/// salt that decodes to bytes Argon2 accepts, opening it gives the
/// decryption of its `nonce` and `ciphertext` fields, in that order, under
/// the Argon2id key of the password and that salt.
pub proof fn lemma_backup_opening_reads_its_fields(
    password: Seq<char>,
    salt_text: Seq<char>,
    nonce_text: Seq<char>,
    ciphertext_text: Seq<char>,
    salt: Seq<u8>,
)
    requires
        base64_decoded(encode_utf8(salt_text)) == Some(salt),
        8 <= salt.len() <= 0xFFFF_FFFF,
        encode_utf8(password).len() <= 0xFFFF_FFFF,
    ensures
        backup_opening(password, "CODEVERTA_VAULT_BACKUP_V1"@, salt_text, nonce_text, ciphertext_text)
            == decryption(argon2id_key(65536, 3, 1, encode_utf8(password), salt), nonce_text, ciphertext_text),
{
}

/// Opens a backup file with `password`, giving the serialised items.
pub fn open_backup(password: &str, backup: &BackupFile) -> (result: Result<Vec<u8>, VaultError>)
    ensures
        bytes_view(result) == backup_opening(password@, backup.magic@, backup.salt@, backup.nonce@, backup.ciphertext@),
        backup.magic@ != "CODEVERTA_VAULT_BACKUP_V1"@ ==> result == Err::<Vec<u8>, VaultError>(VaultError::NotABackup),
        match base64_decoded(encode_utf8(backup.salt@)) {
            Some(salt) => backup.magic@ == "CODEVERTA_VAULT_BACKUP_V1"@ && 8 <= salt.len() <= 0xFFFF_FFFF
                && encode_utf8(password@).len() <= 0xFFFF_FFFF ==> bytes_view(result) == decryption(
                    argon2id_key(65536, 3, 1, encode_utf8(password@), salt),
                    backup.nonce@,
                    backup.ciphertext@,
                ),
            None => backup.magic@ == "CODEVERTA_VAULT_BACKUP_V1"@
                ==> result == Err::<Vec<u8>, VaultError>(VaultError::BackupSaltCorrupt),
        },
{
    let magic = export_magic_text();
    if !(backup.magic == magic) {
        return Err(VaultError::NotABackup);
    }
    let salt = match base64_decode(backup.salt.as_str().as_bytes()) {
        Ok(s) => s,
        Err(_) => return Err(VaultError::BackupSaltCorrupt),
    };
    let key = match derive_key(password, salt.as_slice()) {
        Ok(k) => k,
        Err(e) => return Err(e),
    };
    let blob = CipherBlob { nonce: backup.nonce.clone(), ciphertext: backup.ciphertext.clone() };
    decrypt(&key, &blob)
}

} // verus!
