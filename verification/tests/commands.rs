use vault::commands::{
    can_seal, change_master_password, check_backup_password, check_master_password, check_text_bytes, create_vault,
    export_magic_text, open_backup, open_listed_item, rekey_item, rekey_rows, seal_backup, seal_check, unlock_vault, BackupFile,
};
use vault::crypto::{decrypt, encrypt, CipherBlob};
use vault::error::VaultError;

const PASSWORD: &str = "correct horse battery";

#[test]
fn the_check_text_and_marker_are_fixed() {
    assert_eq!(check_text_bytes(), b"vault-key-check-v1".to_vec());
    assert_eq!(export_magic_text(), "CODEVERTA_VAULT_BACKUP_V1");
}

#[test]
fn master_passwords_need_ten_bytes() {
    assert_eq!(check_master_password("123456789"), Err(VaultError::MasterPasswordTooShort));
    assert_eq!(check_master_password("1234567890"), Ok(()));
    assert_eq!(check_master_password("ééééé"), Ok(()));
    assert_eq!(create_vault("short", false).err(), Some(VaultError::MasterPasswordTooShort));
    assert_eq!(create_vault(PASSWORD, true).err(), Some(VaultError::AlreadyCreated));
    assert_eq!(VaultError::MasterPasswordTooShort.message(), "Master password minimal 10 karakter");
    assert_eq!(VaultError::AlreadyCreated.message(), "Vault sudah dibuat");
}

#[test]
fn a_created_vault_unlocks_with_its_password() {
    let created = create_vault(PASSWORD, false).unwrap();
    assert_eq!(decrypt(&created.key, &created.check).unwrap(), b"vault-key-check-v1");
    let check = CipherBlob { nonce: created.check.nonce.clone(), ciphertext: created.check.ciphertext.clone() };
    let key = unlock_vault(PASSWORD.to_string(), Some(created.salt.to_vec()), Some(Some(check))).unwrap();
    assert_eq!(key, created.key);
}

#[test]
fn unlocking_reports_what_is_missing_first() {
    assert_eq!(unlock_vault(PASSWORD.to_string(), None, None), Err(VaultError::NotCreated));
    assert_eq!(unlock_vault(PASSWORD.to_string(), Some(vec![1; 16]), None), Err(VaultError::MetadataIncomplete));
    assert_eq!(unlock_vault(PASSWORD.to_string(), Some(vec![1; 4]), Some(None)), Err(VaultError::SaltTooShort));
    assert_eq!(unlock_vault(PASSWORD.to_string(), Some(vec![1; 16]), Some(None)), Err(VaultError::MetadataCorrupt));
    assert_eq!(VaultError::NotCreated.message(), "Vault belum dibuat");
    assert_eq!(VaultError::MetadataIncomplete.message(), "Metadata vault tidak lengkap");
    assert_eq!(VaultError::MetadataCorrupt.message(), "Metadata vault rusak");
}

#[test]
fn a_wrong_password_does_not_unlock() {
    let created = create_vault(PASSWORD, false).unwrap();
    let check = CipherBlob { nonce: created.check.nonce.clone(), ciphertext: created.check.ciphertext.clone() };
    let result = unlock_vault("incorrect horse battery".to_string(), Some(created.salt.to_vec()), Some(Some(check)));
    assert_eq!(result, Err(VaultError::DecryptionFailed));
}

#[test]
fn a_key_check_of_other_text_is_a_wrong_password() {
    let salt = vec![4u8; 16];
    let key = vault::crypto::derive_key(PASSWORD, &salt).unwrap();
    let other = encrypt(&key, b"something else").unwrap();
    assert_eq!(unlock_vault(PASSWORD.to_string(), Some(salt), Some(Some(other))), Err(VaultError::WrongMasterPassword));
    assert_eq!(VaultError::WrongMasterPassword.message(), "Master password salah");
}

#[test]
fn changing_the_password_rekeys_items() {
    let created = create_vault(PASSWORD, false).unwrap();
    let item = encrypt(&created.key, b"{\"id\":\"1\"}").unwrap();
    let check = CipherBlob { nonce: created.check.nonce.clone(), ciphertext: created.check.ciphertext.clone() };
    let change = change_master_password(PASSWORD.to_string(), "a brand new password", Some(created.salt.to_vec()), Some(Some(check))).unwrap();
    assert_eq!(change.old_key, created.key);
    assert_ne!(change.new_key, created.key);
    let rekeyed = rekey_item(&change.old_key, &change.new_key, Some(&item)).unwrap();
    assert_eq!(decrypt(&change.new_key, &rekeyed).unwrap(), b"{\"id\":\"1\"}");
    assert_eq!(decrypt(&change.old_key, &rekeyed), Err(VaultError::DecryptionFailed));
    let new_check = seal_check(&change.new_key).unwrap();
    let key = unlock_vault("a brand new password".to_string(), Some(change.new_salt.to_vec()), Some(Some(new_check))).unwrap();
    assert_eq!(key, change.new_key);
}

#[test]
fn changing_the_password_checks_in_order() {
    assert_eq!(change_master_password(PASSWORD.to_string(), "short", None, None).err(), Some(VaultError::NewMasterPasswordTooShort));
    assert_eq!(change_master_password(PASSWORD.to_string(), "long enough now", None, None).err(), Some(VaultError::NotCreated));
    assert_eq!(change_master_password(PASSWORD.to_string(), "long enough now", Some(vec![2; 16]), None).err(), Some(VaultError::ChangeMetadataIncomplete));
    assert_eq!(change_master_password(PASSWORD.to_string(), "long enough now", Some(vec![2; 16]), Some(None)).err(), Some(VaultError::ChangeMetadataCorrupt));
    let stranger = encrypt(&[0u8; 32], b"vault-key-check-v1").unwrap();
    assert_eq!(change_master_password(PASSWORD.to_string(), "long enough now", Some(vec![2; 16]), Some(Some(stranger))).err(), Some(VaultError::CurrentPasswordWrong));
    assert_eq!(VaultError::CurrentPasswordWrong.message(), "Master password saat ini salah");
}

#[test]
fn rekeying_reports_unreadable_rows() {
    assert_eq!(rekey_item(&[1; 32], &[2; 32], None).err(), Some(VaultError::StoredItemCorrupt));
    let blob = encrypt(&[3; 32], b"x").unwrap();
    assert_eq!(rekey_item(&[1; 32], &[2; 32], Some(&blob)).err(), Some(VaultError::DecryptionFailed));
    assert_eq!(VaultError::StoredItemCorrupt.message(), "Item rusak");
}

#[test]
fn listed_rows_open_under_the_vault_key() {
    let key = [6u8; 32];
    let blob = encrypt(&key, b"[1]").unwrap();
    assert_eq!(open_listed_item(&key, Some(blob)).unwrap(), b"[1]");
    assert_eq!(open_listed_item(&key, None), Err(VaultError::ItemCorrupt));
    assert_eq!(VaultError::ItemCorrupt.message(), "Item vault rusak");
}

#[test]
fn a_backup_opens_with_its_password() {
    assert_eq!(check_backup_password("12345"), Err(VaultError::BackupPasswordTooShort));
    assert_eq!(check_backup_password("123456"), Ok(()));
    let backup = seal_backup("backup-pw", b"[{\"id\":\"x\"}]").unwrap();
    assert_eq!(backup.magic, "CODEVERTA_VAULT_BACKUP_V1");
    assert_eq!(backup.salt.len(), 24);
    assert_eq!(open_backup("backup-pw", &backup).unwrap(), b"[{\"id\":\"x\"}]");
    assert_eq!(open_backup("other-pw", &backup), Err(VaultError::DecryptionFailed));
}

#[test]
fn a_foreign_or_damaged_backup_is_refused() {
    let not_backup = BackupFile { magic: "SOMETHING".to_string(), salt: String::new(), nonce: String::new(), ciphertext: String::new() };
    assert_eq!(open_backup("pw", &not_backup), Err(VaultError::NotABackup));
    let bad_salt = BackupFile { magic: "CODEVERTA_VAULT_BACKUP_V1".to_string(), salt: "!!".to_string(), nonce: String::new(), ciphertext: String::new() };
    assert_eq!(open_backup("pw", &bad_salt), Err(VaultError::BackupSaltCorrupt));
    let short_salt = BackupFile { magic: "CODEVERTA_VAULT_BACKUP_V1".to_string(), salt: "AAAA".to_string(), nonce: String::new(), ciphertext: String::new() };
    assert_eq!(open_backup("pw", &short_salt), Err(VaultError::SaltTooShort));
    assert_eq!(VaultError::NotABackup.message(), "File ini bukan backup Vault yang valid");
}

#[test]
fn sealing_sizes_are_bounded_by_the_machine() {
    assert!(can_seal(0));
    assert!(can_seal(1 << 20));
    assert!(can_seal(usize::MAX));
}

#[test]
fn rekeying_all_rows_keeps_each_plaintext_or_stops_at_the_first_refusal() {
    let old_key = [1u8; 32];
    let new_key = [2u8; 32];
    let rows = vec![Some(encrypt(&old_key, b"first").unwrap()), Some(encrypt(&old_key, b"second").unwrap())];
    let rekeyed = rekey_rows(&old_key, &new_key, &rows).unwrap();
    assert_eq!(rekeyed.len(), 2);
    assert_eq!(decrypt(&new_key, &rekeyed[0]).unwrap(), b"first");
    assert_eq!(decrypt(&new_key, &rekeyed[1]).unwrap(), b"second");
    assert!(rekey_rows(&old_key, &new_key, &Vec::new()).unwrap().is_empty());
    let broken = vec![Some(encrypt(&old_key, b"ok").unwrap()), None, Some(encrypt(&[9u8; 32], b"x").unwrap())];
    assert_eq!(rekey_rows(&old_key, &new_key, &broken).err(), Some(VaultError::StoredItemCorrupt));
    let foreign = vec![Some(encrypt(&[9u8; 32], b"x").unwrap()), None];
    assert_eq!(rekey_rows(&old_key, &new_key, &foreign).err(), Some(VaultError::DecryptionFailed));
}
