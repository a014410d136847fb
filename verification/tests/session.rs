use vault::error::VaultError;
use vault::session::{Session, Status};

#[test]
fn a_new_session_is_locked() {
    let session = Session::new();
    assert!(!session.is_unlocked());
    assert_eq!(session.active_key(), Err(VaultError::Locked));
    assert_eq!(VaultError::Locked.message(), "Vault terkunci");
    assert_eq!(session.status(false), Status { initialized: false, unlocked: false });
}

#[test]
fn an_installed_key_is_given_back_until_locked() {
    let mut session = Session::new();
    session.install_key([5u8; 32]);
    assert!(session.is_unlocked());
    assert_eq!(session.active_key(), Ok([5u8; 32]));
    assert_eq!(session.status(true), Status { initialized: true, unlocked: true });
    session.install_key([6u8; 32]);
    assert_eq!(session.active_key(), Ok([6u8; 32]));
    session.lock();
    assert_eq!(session.active_key(), Err(VaultError::Locked));
    session.lock();
    assert!(!session.is_unlocked());
}
