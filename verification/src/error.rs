use vstd::prelude::*;

verus! {

/// Every way a vault operation can be refused.
#[derive(Clone, Copy, Debug, PartialEq, Eq, Structural)]
pub enum VaultError {
    /// The stored nonce is not valid base64 or not 12 bytes long.
    CorruptNonce,
    /// The stored ciphertext is not valid base64.
    CorruptCiphertext,
    /// Authenticated decryption failed: wrong key or modified data.
    DecryptionFailed,
    /// The plaintext is too long for AES-256-GCM.
    EncryptionFailed,
    /// Argon2 refuses a password longer than `u32::MAX` bytes.
    PasswordTooLongForKdf,
    /// Argon2 refuses a salt shorter than 8 bytes.
    SaltTooShort,
    /// Argon2 refuses a salt longer than `u32::MAX` bytes.
    SaltTooLong,
    /// No key is held: the vault is locked.
    Locked,
    /// A new vault's master password has fewer than 10 bytes.
    MasterPasswordTooShort,
    /// A vault already exists.
    AlreadyCreated,
    /// No vault exists yet (no salt is stored).
    NotCreated,
    /// The stored key check is missing.
    MetadataIncomplete,
    /// The stored key check cannot be read.
    MetadataCorrupt,
    /// The key check does not open to the check text.
    WrongMasterPassword,
    /// A stored item cannot be read as a sealed blob.
    ItemCorrupt,
    /// A decrypted item is not a valid item.
    ItemContentCorrupt,
    /// An item's title is empty or only white space.
    TitleRequired,
    /// A backup password has fewer than 6 bytes.
    BackupPasswordTooShort,
    /// A backup file is not a readable backup record.
    BackupFormatInvalid,
    /// A backup file does not carry the backup marker.
    NotABackup,
    /// A backup's salt is not valid base64.
    BackupSaltCorrupt,
    /// A decrypted backup is not a list of items.
    BackupContentInvalid,
    /// A replacement master password has fewer than 10 bytes.
    NewMasterPasswordTooShort,
    /// The stored key check is missing (while changing the password).
    ChangeMetadataIncomplete,
    /// The stored key check cannot be read (while changing the password).
    ChangeMetadataCorrupt,
    /// The current master password does not open the key check.
    CurrentPasswordWrong,
    /// A stored item cannot be read as a sealed blob (while re-keying).
    StoredItemCorrupt,
}

/// The text shown to the user for each error.
pub open spec fn error_text(e: VaultError) -> Seq<char> {
    match e {
        VaultError::CorruptNonce => "Data nonce rusak"@,
        VaultError::CorruptCiphertext => "Data terenkripsi rusak"@,
        VaultError::DecryptionFailed => "Password salah atau data rusak"@,
        VaultError::EncryptionFailed => "Enkripsi gagal"@,
        VaultError::PasswordTooLongForKdf => "password is too long"@,
        VaultError::SaltTooShort => "salt is too short"@,
        VaultError::SaltTooLong => "salt is too long"@,
        VaultError::Locked => "Vault terkunci"@,
        VaultError::MasterPasswordTooShort => "Master password minimal 10 karakter"@,
        VaultError::AlreadyCreated => "Vault sudah dibuat"@,
        VaultError::NotCreated => "Vault belum dibuat"@,
        VaultError::MetadataIncomplete => "Metadata vault tidak lengkap"@,
        VaultError::MetadataCorrupt => "Metadata vault rusak"@,
        VaultError::WrongMasterPassword => "Master password salah"@,
        VaultError::ItemCorrupt => "Item vault rusak"@,
        VaultError::ItemContentCorrupt => "Isi item vault rusak"@,
        VaultError::TitleRequired => "Nama item wajib diisi"@,
        VaultError::BackupPasswordTooShort => "Password backup minimal 6 karakter"@,
        VaultError::BackupFormatInvalid => "Format backup tidak valid"@,
        VaultError::NotABackup => "File ini bukan backup Vault yang valid"@,
        VaultError::BackupSaltCorrupt => "Salt backup rusak"@,
        VaultError::BackupContentInvalid => "Isi backup tidak valid"@,
        VaultError::NewMasterPasswordTooShort => "Master password baru minimal 10 karakter"@,
        VaultError::ChangeMetadataIncomplete => "Metadata tidak lengkap"@,
        VaultError::ChangeMetadataCorrupt => "Metadata rusak"@,
        VaultError::CurrentPasswordWrong => "Master password saat ini salah"@,
        VaultError::StoredItemCorrupt => "Item rusak"@,
    }
}

impl VaultError {
    /// The user-facing message of this error.
    pub fn message(&self) -> (text: &'static str)
        ensures
            text@ == error_text(*self),
    {
        match self {
            VaultError::CorruptNonce => "Data nonce rusak",
            VaultError::CorruptCiphertext => "Data terenkripsi rusak",
            VaultError::DecryptionFailed => "Password salah atau data rusak",
            VaultError::EncryptionFailed => "Enkripsi gagal",
            VaultError::PasswordTooLongForKdf => "password is too long",
            VaultError::SaltTooShort => "salt is too short",
            VaultError::SaltTooLong => "salt is too long",
            VaultError::Locked => "Vault terkunci",
            VaultError::MasterPasswordTooShort => "Master password minimal 10 karakter",
            VaultError::AlreadyCreated => "Vault sudah dibuat",
            VaultError::NotCreated => "Vault belum dibuat",
            VaultError::MetadataIncomplete => "Metadata vault tidak lengkap",
            VaultError::MetadataCorrupt => "Metadata vault rusak",
            VaultError::WrongMasterPassword => "Master password salah",
            VaultError::ItemCorrupt => "Item vault rusak",
            VaultError::ItemContentCorrupt => "Isi item vault rusak",
            VaultError::TitleRequired => "Nama item wajib diisi",
            VaultError::BackupPasswordTooShort => "Password backup minimal 6 karakter",
            VaultError::BackupFormatInvalid => "Format backup tidak valid",
            VaultError::NotABackup => "File ini bukan backup Vault yang valid",
            VaultError::BackupSaltCorrupt => "Salt backup rusak",
            VaultError::BackupContentInvalid => "Isi backup tidak valid",
            VaultError::NewMasterPasswordTooShort => "Master password baru minimal 10 karakter",
            VaultError::ChangeMetadataIncomplete => "Metadata tidak lengkap",
            VaultError::ChangeMetadataCorrupt => "Metadata rusak",
            VaultError::CurrentPasswordWrong => "Master password saat ini salah",
            VaultError::StoredItemCorrupt => "Item rusak",
        }
    }
}

} // verus!
