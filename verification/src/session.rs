use vstd::prelude::*;
use zeroize::Zeroize;
use crate::error::VaultError;

verus! {

/// Wraps `zeroize::Zeroize::zeroize` for `[u8; 32]`: every byte is
/// overwritten with zero, by writes the compiler may not elide.
#[verifier::external_body]
fn zeroize_key(key: &mut [u8; 32])
    ensures
        final(key)@ == Seq::new(32, |i: int| 0u8),
{
    key.zeroize()
}

/// Wraps `zeroize::Zeroize::zeroize` for `String`: its bytes are
/// overwritten with zero and its length is set to zero.
#[verifier::external_body]
pub(crate) fn zeroize_text(text: &mut String)
    ensures
        final(text)@.len() == 0,
{
    text.zeroize()
}

/// What the vault reports of itself.
#[derive(Clone, Copy, Debug, PartialEq, Eq, Structural)]
pub struct Status {
    /// A vault has been created (a salt is stored).
    pub initialized: bool,
    /// The key is held in memory.
    pub unlocked: bool,
}

/// The in-memory key of an open vault, or nothing while it is locked.
pub struct Session {
    key: Option<[u8; 32]>,
}

/// What asking a session for its key gives, by the key it holds.
pub open spec fn active_key_outcome(held: Option<Seq<u8>>) -> Result<Seq<u8>, VaultError> {
    match held {
        Some(k) => Ok(k),
        None => Err(VaultError::Locked),
    }
}

impl View for Session {
    type V = Option<Seq<u8>>;

    closed spec fn view(&self) -> Option<Seq<u8>> {
        match self.key {
            Some(k) => Some(k@),
            None => None,
        }
    }
}

impl Session {
    /// A locked session.
    pub fn new() -> (session: Session)
        ensures
            session@ is None,
    {
        Session { key: None }
    }

    /// Whether a key is held.
    pub fn is_unlocked(&self) -> (unlocked: bool)
        ensures
            unlocked == (self@ is Some),
    {
        self.key.is_some()
    }

    /// The key held, or `Locked`.
    pub fn active_key(&self) -> (result: Result<[u8; 32], VaultError>)
        ensures
            match result {
                Ok(k) => active_key_outcome(self@) == Ok::<Seq<u8>, VaultError>(k@),
                Err(e) => active_key_outcome(self@) == Err::<Seq<u8>, VaultError>(e),
            },
    {
        match self.key {
            Some(k) => Ok(k),
            None => Err(VaultError::Locked),
        }
    }

    /// Forgets the key, overwriting the held copy with zeros first.
    pub fn lock(&mut self)
        ensures
            final(self)@ is None,
            final(self)@ == key_event(old(self)@, None),
    {
        match &mut self.key {
            Some(k) => zeroize_key(k),
            None => {},
        }
        self.key = None;
    }

    /// Holds `key` from now on, overwriting any previous key with zeros.
    pub fn install_key(&mut self, key: [u8; 32])
        ensures
            final(self)@ == Some(key@),
            final(self)@ == key_event(old(self)@, Some(key@)),
    {
        self.lock();
        self.key = Some(key);
    }

    /// The vault's status, given whether a vault has been created.
    pub fn status(&self, initialized: bool) -> (status: Status)
        ensures
            status.initialized == initialized,
            status.unlocked == (self@ is Some),
    {
        Status { initialized, unlocked: self.key.is_some() }
    }
}

/// The key held after one key event: `Some(k)` is installing `k` (as
/// create, unlock and a change of password do), `None` is locking.
pub open spec fn key_event(held: Option<Seq<u8>>, event: Option<Seq<u8>>) -> Option<Seq<u8>> {
    match event {
        Some(k) => Some(k),
        None => None,
    }
}

/// The key held after a run of key events, starting from `start`.
pub open spec fn held_after(start: Option<Seq<u8>>, events: Seq<Option<Seq<u8>>>) -> Option<Seq<u8>>
    decreases events.len(),
{
    if events.len() == 0 {
        start
    } else {
        key_event(held_after(start, events.drop_last()), events.last())
    }
}

/// Over any run of successful key events, the vault reports itself
/// unlocked exactly when the last of them installed a key (a session
/// starts locked, so with no events it is locked), and the key it then
/// gives is the one last installed.
pub proof fn lemma_unlocked_after_events(events: Seq<Option<Seq<u8>>>)
    ensures
        (held_after(None, events) is Some) <==> (events.len() > 0 && events.last() is Some),
        events.len() > 0 ==> held_after(None, events) == events.last(),
{
}

/// Once the vault is locked, every request for the key is refused with
/// `Locked`; while a key is held, the request gives exactly that key.
pub proof fn lemma_active_key_follows_lock_state(held: Option<Seq<u8>>)
    ensures
        held is None ==> active_key_outcome(held) == Err::<Seq<u8>, VaultError>(VaultError::Locked),
        held matches Some(k) ==> active_key_outcome(held) == Ok::<Seq<u8>, VaultError>(k),
{
}

} // verus!
