use vstd::prelude::*;
use crate::crypto::{decrypt, decryption, CipherBlob};
use crate::error::VaultError;
use crate::session::Session;

verus! {

/// A stored vault item, as it is sealed (as JSON) into one encrypted row.
#[derive(Debug)]
pub struct VaultItem {
    pub id: String,
    pub title: String,
    pub item_type: String,
    pub username: String,
    pub secret: String,
    pub notes: String,
    pub tags: Vec<String>,
    pub favorite: bool,
    pub created_at: i64,
    pub updated_at: i64,
}

/// An item as the user submits it for saving; `id` is absent for a new item.
#[derive(Debug)]
pub struct ItemInput {
    pub id: Option<String>,
    pub title: String,
    pub item_type: String,
    pub username: String,
    pub secret: String,
    pub notes: String,
    pub tags: Vec<String>,
    pub favorite: bool,
}

/// Whether `c` has the Unicode `White_Space` property (the characters that
/// `str::trim` removes).
pub open spec fn is_white_space(c: char) -> bool {
    ||| '\u{9}' <= c <= '\u{d}'
    ||| c == ' '
    ||| c == '\u{85}'
    ||| c == '\u{a0}'
    ||| c == '\u{1680}'
    ||| '\u{2000}' <= c <= '\u{200a}'
    ||| c == '\u{2028}'
    ||| c == '\u{2029}'
    ||| c == '\u{202f}'
    ||| c == '\u{205f}'
    ||| c == '\u{3000}'
}

/// Whether a text is empty once white space is trimmed from both ends,
/// that is, whether every character of it is white space.
pub open spec fn is_blank(text: Seq<char>) -> bool {
    forall|i: int| 0 <= i < text.len() ==> #[trigger] is_white_space(text[i])
}

fn white_space(c: char) -> (ws: bool)
    ensures
        ws == is_white_space(c),
{
    ('\u{9}' <= c && c <= '\u{d}') || c == ' ' || c == '\u{85}' || c == '\u{a0}' || c == '\u{1680}'
        || ('\u{2000}' <= c && c <= '\u{200a}') || c == '\u{2028}' || c == '\u{2029}' || c == '\u{202f}'
        || c == '\u{205f}' || c == '\u{3000}'
}

/// Refuses an item whose title is blank.
pub fn check_item_title(title: &str) -> (result: Result<(), VaultError>)
    ensures
        result is Err <==> is_blank(title@),
        result matches Err(e) ==> e == VaultError::TitleRequired,
{
    for c in iter: title.chars()
        invariant
            iter.seq() == title@,
            forall|j: int| 0 <= j < iter.index() ==> #[trigger] is_white_space(title@[j]),
    {
        if !white_space(c) {
            return Ok(());
        }
    }
    Err(VaultError::TitleRequired)
}

/// Whether `c` is a lower-case hexadecimal digit.
pub open spec fn is_lower_hex(c: char) -> bool {
    ('0' <= c <= '9') || ('a' <= c <= 'f')
}

/// Whether `text` is a version-4 (random), RFC 4122 variant UUID in
/// lower-case hyphenated form: 8-4-4-4-12 hexadecimal digits, the version
/// digit `4`, and a variant digit among `8`, `9`, `a`, `b`.
pub open spec fn is_hyphenated_v4_uuid(text: Seq<char>) -> bool {
    &&& text.len() == 36
    &&& forall|i: int| 0 <= i < 36 ==> if i == 8 || i == 13 || i == 18 || i == 23 {
        #[trigger] text[i] == '-'
    } else {
        is_lower_hex(text[i])
    }
    &&& text[14] == '4'
    &&& (text[19] == '8' || text[19] == '9' || text[19] == 'a' || text[19] == 'b')
}

/// Wraps `uuid::Uuid::new_v4` and its `to_string`: a random UUID whose
/// version bits are set to 4 and variant bits to RFC 4122 (`new_v4` masks
/// them in), written by `Display` in lower-case hyphenated form. Which
/// random digits it holds is not stated.
#[verifier::external_body]
fn fresh_uuid() -> (id: String)
    ensures
        is_hyphenated_v4_uuid(id@),
{
    uuid::Uuid::new_v4().to_string()
}

/// Wraps `chrono::Utc::now().timestamp()`: the current time in seconds
/// since the Unix epoch. Nothing is stated of it: it depends on the clock.
#[verifier::external_body]
fn unix_now() -> (now: i64)
{
    chrono::Utc::now().timestamp()
}

/// What saving an item needs once it is accepted: the vault key, the
/// item's id, and the time of the save.
pub struct SaveContext {
    pub key: [u8; 32],
    pub id: String,
    pub now: i64,
}

/// The first steps of saving an item at the time `now`: a blank title is
/// refused, then a locked vault; the item keeps the id it came with, or
/// gets a fresh one, and the save is stamped with exactly `now`.
pub fn prepare_save_at(session: &Session, input: &ItemInput, now: i64) -> (result: Result<SaveContext, VaultError>)
    ensures
        match result {
            Ok(ctx) => {
                &&& !is_blank(input.title@)
                &&& session@ == Some(ctx.key@)
                &&& (input.id matches Some(id) ==> ctx.id@ == id@)
                &&& (input.id is None ==> is_hyphenated_v4_uuid(ctx.id@))
                &&& ctx.now == now
            },
            Err(e) => {
                ||| is_blank(input.title@) && e == VaultError::TitleRequired
                ||| !is_blank(input.title@) && session@ is None && e == VaultError::Locked
            },
        },
{
    check_item_title(input.title.as_str())?;
    let key = session.active_key()?;
    let id = match &input.id {
        Some(id) => id.clone(),
        None => fresh_uuid(),
    };
    Ok(SaveContext { key, id, now })
}

/// The first steps of saving an item, stamped with the clock's current
/// reading (see `prepare_save_at`).
pub fn prepare_save(session: &Session, input: &ItemInput) -> (result: Result<SaveContext, VaultError>)
    ensures
        match result {
            Ok(ctx) => {
                &&& !is_blank(input.title@)
                &&& session@ == Some(ctx.key@)
                &&& (input.id matches Some(id) ==> ctx.id@ == id@)
                &&& (input.id is None ==> is_hyphenated_v4_uuid(ctx.id@))
            },
            Err(e) => {
                ||| is_blank(input.title@) && e == VaultError::TitleRequired
                ||| !is_blank(input.title@) && session@ is None && e == VaultError::Locked
            },
        },
{
    let now = unix_now();
    prepare_save_at(session, input, now)
}

/// The plaintext of the row an item is about to replace, if there is such
/// a row and it opens under `key`; any failure counts as no row.
pub fn previous_plaintext(key: &[u8; 32], stored: Option<CipherBlob>) -> (plaintext: Option<Vec<u8>>)
    ensures
        match stored {
            None => plaintext is None,
            Some(blob) => match decryption(key@, blob.nonce@, blob.ciphertext@) {
                Ok(p) => plaintext matches Some(v) && v@ == p,
                Err(_) => plaintext is None,
            },
        },
{
    match stored {
        None => None,
        Some(blob) => match decrypt(key, &blob) {
            Ok(p) => Some(p),
            Err(_) => None,
        },
    }
}

/// The item that a save stores: the submitted fields, under the id chosen
/// for it, created when the replaced item was created (or now, for a new
/// item or one whose row could not be read) and updated now.
pub fn save_item(input: ItemInput, ctx: &SaveContext, previous_created: Option<i64>) -> (item: VaultItem)
    ensures
        item.id == ctx.id,
        item.title == input.title,
        item.item_type == input.item_type,
        item.username == input.username,
        item.secret == input.secret,
        item.notes == input.notes,
        item.tags == input.tags,
        item.favorite == input.favorite,
        item.created_at == match previous_created {
            Some(c) => c,
            None => ctx.now,
        },
        item.updated_at == ctx.now,
{
    let created_at = match previous_created {
        Some(c) => c,
        None => ctx.now,
    };
    VaultItem {
        id: ctx.id.clone(),
        title: input.title,
        item_type: input.item_type,
        username: input.username,
        secret: input.secret,
        notes: input.notes,
        tags: input.tags,
        favorite: input.favorite,
        created_at,
        updated_at: ctx.now,
    }
}

/// Whether two items agree on every field but the id.
pub open spec fn same_but_id(a: VaultItem, b: VaultItem) -> bool {
    &&& a.title == b.title
    &&& a.item_type == b.item_type
    &&& a.username == b.username
    &&& a.secret == b.secret
    &&& a.notes == b.notes
    &&& a.tags == b.tags
    &&& a.favorite == b.favorite
    &&& a.created_at == b.created_at
    &&& a.updated_at == b.updated_at
}

/// An imported item whose id is already taken in the vault gets a fresh
/// id; otherwise it is kept as it is.
pub fn settle_imported_id(item: &mut VaultItem, taken: bool)
    ensures
        same_but_id(*final(item), *old(item)),
        taken ==> is_hyphenated_v4_uuid(final(item).id@),
        !taken ==> final(item).id == old(item).id,
{
    if taken {
        item.id = fresh_uuid();
    }
}

} // verus!
