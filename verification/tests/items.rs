use vault::crypto::encrypt;
use vault::error::VaultError;
use vault::item::{check_item_title, prepare_save, previous_plaintext, save_item, settle_imported_id, ItemInput, VaultItem};
use vault::session::Session;

fn input(id: Option<&str>, title: &str) -> ItemInput {
    ItemInput {
        id: id.map(|s| s.to_string()),
        title: title.to_string(),
        item_type: "password".to_string(),
        username: "alice".to_string(),
        secret: "hunter2".to_string(),
        notes: "".to_string(),
        tags: vec!["work".to_string()],
        favorite: true,
    }
}

#[test]
fn blank_titles_are_refused_like_trim_does() {
    for title in ["", " ", "\t\n", "\u{a0}\u{3000}", "\u{2003} \u{85}"] {
        assert!(title.trim().is_empty());
        assert_eq!(check_item_title(title), Err(VaultError::TitleRequired));
    }
    for title in ["a", "  GitHub token ", "\u{200b}", "-"] {
        assert!(!title.trim().is_empty());
        assert_eq!(check_item_title(title), Ok(()));
    }
    assert_eq!(VaultError::TitleRequired.message(), "Nama item wajib diisi");
}

#[test]
fn saving_checks_the_title_before_the_lock() {
    let session = Session::new();
    assert_eq!(prepare_save(&session, &input(None, "  ")).err(), Some(VaultError::TitleRequired));
    assert_eq!(prepare_save(&session, &input(None, "Bank")).err(), Some(VaultError::Locked));
}

#[test]
fn a_save_keeps_a_given_id_or_draws_a_fresh_one() {
    let mut session = Session::new();
    session.install_key([1u8; 32]);
    let kept = prepare_save(&session, &input(Some("item-1"), "Bank")).unwrap();
    assert_eq!(kept.id, "item-1");
    assert_eq!(kept.key, [1u8; 32]);
    let fresh = prepare_save(&session, &input(None, "Bank")).unwrap();
    assert_eq!(fresh.id.len(), 36);
    assert_eq!(fresh.id.matches('-').count(), 4);
    assert!(fresh.now > 1_600_000_000);
    assert!(fresh.now >= kept.now);
}

#[test]
fn a_saved_item_keeps_its_creation_time() {
    let mut session = Session::new();
    session.install_key([1u8; 32]);
    let ctx = prepare_save(&session, &input(Some("item-1"), "Bank")).unwrap();
    let item = save_item(input(Some("ignored"), "Bank"), &ctx, Some(1_000));
    assert_eq!(item.id, "item-1");
    assert_eq!(item.title, "Bank");
    assert_eq!(item.tags, vec!["work".to_string()]);
    assert!(item.favorite);
    assert_eq!(item.created_at, 1_000);
    assert_eq!(item.updated_at, ctx.now);
    let new_item = save_item(input(None, "Mail"), &ctx, None);
    assert_eq!(new_item.created_at, ctx.now);
    assert_eq!(new_item.updated_at, ctx.now);
}

#[test]
fn the_replaced_row_is_read_only_when_it_opens() {
    let key = [9u8; 32];
    let blob = encrypt(&key, b"{\"created_at\":5}").unwrap();
    assert_eq!(previous_plaintext(&key, Some(blob)), Some(b"{\"created_at\":5}".to_vec()));
    let blob = encrypt(&key, b"x").unwrap();
    assert_eq!(previous_plaintext(&[8u8; 32], Some(blob)), None);
    assert_eq!(previous_plaintext(&key, None), None);
}

fn item(id: &str) -> VaultItem {
    VaultItem {
        id: id.to_string(),
        title: "t".to_string(),
        item_type: "note".to_string(),
        username: String::new(),
        secret: "s".to_string(),
        notes: String::new(),
        tags: vec![],
        favorite: false,
        created_at: 1,
        updated_at: 2,
    }
}

#[test]
fn an_imported_item_with_a_taken_id_gets_a_new_one() {
    let mut free = item("abc");
    settle_imported_id(&mut free, false);
    assert_eq!(free.id, "abc");
    let mut taken = item("abc");
    settle_imported_id(&mut taken, true);
    assert_ne!(taken.id, "abc");
    assert_eq!(taken.id.len(), 36);
    assert_eq!(taken.secret, "s");
    assert_eq!(taken.created_at, 1);
    assert_eq!(taken.updated_at, 2);
}

fn is_v4(id: &str) -> bool {
    let chars: Vec<char> = id.chars().collect();
    chars.len() == 36
        && chars.iter().enumerate().all(|(i, c)| {
            if [8, 13, 18, 23].contains(&i) { *c == '-' } else { c.is_ascii_digit() || ('a'..='f').contains(c) }
        })
        && chars[14] == '4'
        && ['8', '9', 'a', 'b'].contains(&chars[19])
}

#[test]
fn fresh_ids_are_hyphenated_version_4_uuids() {
    let mut session = Session::new();
    session.install_key([1u8; 32]);
    for _ in 0..20 {
        let ctx = prepare_save(&session, &input(None, "Bank")).unwrap();
        assert!(is_v4(&ctx.id));
        let mut taken = item("abc");
        settle_imported_id(&mut taken, true);
        assert!(is_v4(&taken.id));
    }
}
