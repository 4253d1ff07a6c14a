use spaghetti_rs::error::{KeyKind, PasteError};
use spaghetti_rs::hasher::hash_secret;
use spaghetti_rs::pasta::{NewPasta, NewPastaPayload};
use spaghetti_rs::service::{create, create_with, delete, look_up, retrieve};
use spaghetti_rs::store::{InsertOutcome, PasteStore};

fn payload(slug: Option<&str>, view_key: Option<&str>, edit_key: Option<&str>) -> NewPastaPayload {
    NewPastaPayload {
        title: "T".to_string(),
        content: "C".to_string(),
        slug: slug.map(str::to_string),
        view_key: view_key.map(str::to_string),
        edit_key: edit_key.map(str::to_string),
    }
}

#[test]
fn create_with_a_slug_stores_under_that_slug() {
    let mut store = PasteStore::new();
    let body = create(&mut store, payload(Some("fixed-slug-1"), None, None)).unwrap();
    assert_eq!(body.id, 1);
    assert_eq!(body.title, "T");
    assert_eq!(body.content, "C");
    assert_eq!(body.slug, "fixed-slug-1");
    assert_eq!(store.len(), 1);
    assert!(store.exists_by_slug("fixed-slug-1"));
}

#[test]
fn create_without_a_slug_generates_one() {
    let mut store = PasteStore::new();
    let body = create(&mut store, payload(None, None, None)).unwrap();
    assert_eq!(body.slug.len(), 8);
    assert!(body.slug.chars().all(|c| c == '_' || c == '-' || c.is_ascii_alphanumeric()));
    assert!(store.exists_by_slug(&body.slug));
    assert_eq!(store.len(), 1);
}

#[test]
fn create_twice_under_the_same_slug_is_a_conflict() {
    let mut store = PasteStore::new();
    assert!(create(&mut store, payload(Some("fixed-slug-1"), None, None)).is_ok());
    let mut second = payload(Some("fixed-slug-1"), None, None);
    second.title = "t".to_string();
    second.content = "c".to_string();
    assert_eq!(create(&mut store, second).unwrap_err(), PasteError::Conflict);
    assert_eq!(store.len(), 1);
    assert_eq!(store.find_by_slug("fixed-slug-1").unwrap().title, "T");
}

#[test]
fn create_with_a_short_slug_is_rejected_before_storage() {
    let mut store = PasteStore::new();
    assert_eq!(
        create(&mut store, payload(Some("short"), None, None)).unwrap_err(),
        PasteError::Validation
    );
    assert_eq!(store.len(), 0);
    // No id was used up either.
    assert_eq!(create(&mut store, payload(Some("long-enough"), None, None)).unwrap().id, 1);
}

#[test]
fn create_with_a_slug_of_seven_bytes_is_rejected_and_of_eight_accepted() {
    let mut store = PasteStore::new();
    assert_eq!(
        create(&mut store, payload(Some("1234567"), None, None)).unwrap_err(),
        PasteError::Validation
    );
    assert!(create(&mut store, payload(Some("12345678"), None, None)).is_ok());
}

#[test]
fn a_short_slug_is_rejected_even_where_it_is_taken() {
    let mut store = PasteStore::new();
    let odd = NewPasta {
        title: "T".to_string(),
        content: "C".to_string(),
        slug: "short".to_string(),
        view_key: None,
        edit_key: None,
    };
    assert!(matches!(store.insert(&odd), InsertOutcome::Inserted(_)));
    assert_eq!(
        create(&mut store, payload(Some("short"), None, None)).unwrap_err(),
        PasteError::Validation
    );
}

#[test]
fn create_stores_hashes_of_the_keys() {
    let mut store = PasteStore::new();
    create(&mut store, payload(Some("fixed-slug-1"), Some("abc"), Some("xyz"))).unwrap();
    let stored = store.find_by_slug("fixed-slug-1").unwrap();
    assert_eq!(stored.view_key.as_deref(), Some("ungWv48Bz+pBQUDeXa4iI7ADYaOWF3qctBD/YfIAFa0="));
    assert_eq!(stored.edit_key, Some(hash_secret(b"xyz")));
    assert_ne!(stored.view_key.as_deref(), Some("abc"));
    assert_ne!(stored.edit_key.as_deref(), Some("xyz"));
}

#[test]
fn create_without_keys_stores_no_hashes() {
    let mut store = PasteStore::new();
    create(&mut store, payload(Some("fixed-slug-1"), None, None)).unwrap();
    let stored = store.find_by_slug("fixed-slug-1").unwrap();
    assert_eq!(stored.view_key, None);
    assert_eq!(stored.edit_key, None);
}

#[test]
fn an_empty_key_is_a_key() {
    let mut store = PasteStore::new();
    create(&mut store, payload(Some("fixed-slug-1"), Some(""), None)).unwrap();
    assert_eq!(
        retrieve(&store, "fixed-slug-1", None).unwrap_err(),
        PasteError::SecretRequired(KeyKind::View)
    );
    assert!(retrieve(&store, "fixed-slug-1", Some(b"")).is_ok());
}

#[test]
fn round_trip_without_a_secret() {
    let mut store = PasteStore::new();
    let created = create(&mut store, payload(None, None, None)).unwrap();
    let read = retrieve(&store, &created.slug, None).unwrap();
    assert_eq!(read.id, created.id);
    assert_eq!(read.title, "T");
    assert_eq!(read.content, "C");
    assert_eq!(read.slug, created.slug);
}

#[test]
fn round_trip_keeps_title_and_content_unchanged() {
    let mut store = PasteStore::new();
    let mut sent = payload(Some("fixed-slug-1"), None, None);
    sent.title = "  A title, with \"quotes\" and ünïcödé \n".to_string();
    sent.content = String::new();
    create(&mut store, sent).unwrap();
    let read = retrieve(&store, "fixed-slug-1", Some(b"not needed")).unwrap();
    assert_eq!(read.title, "  A title, with \"quotes\" and ünïcödé \n");
    assert_eq!(read.content, "");
}

#[test]
fn view_key_guards_reading() {
    let mut store = PasteStore::new();
    let created = create(&mut store, payload(None, Some("abc"), None)).unwrap();
    assert_eq!(
        retrieve(&store, &created.slug, None).unwrap_err(),
        PasteError::SecretRequired(KeyKind::View)
    );
    let read = retrieve(&store, &created.slug, Some(b"abc")).unwrap();
    assert_eq!(read.id, created.id);
    assert_eq!(read.title, "T");
    assert_eq!(read.content, "C");
    assert_eq!(
        retrieve(&store, &created.slug, Some(b"wrong")).unwrap_err(),
        PasteError::InvalidSecret(KeyKind::View)
    );
}

#[test]
fn edit_key_does_not_guard_reading() {
    let mut store = PasteStore::new();
    create(&mut store, payload(Some("fixed-slug-1"), None, Some("xyz"))).unwrap();
    assert!(retrieve(&store, "fixed-slug-1", None).is_ok());
}

#[test]
fn retrieve_of_an_unknown_slug_is_not_found() {
    let mut store = PasteStore::new();
    assert_eq!(retrieve(&store, "fixed-slug-1", None).unwrap_err(), PasteError::NotFound);
    create(&mut store, payload(Some("fixed-slug-1"), None, None)).unwrap();
    assert_eq!(retrieve(&store, "fixed-slug-2", Some(b"abc")).unwrap_err(), PasteError::NotFound);
}

#[test]
fn a_paste_is_not_read_by_its_id() {
    let mut store = PasteStore::new();
    let created = create(&mut store, payload(Some("abcdefgh"), None, None)).unwrap();
    assert_eq!(created.id, 1);
    assert_eq!(retrieve(&store, "1", None).unwrap_err(), PasteError::NotFound);
    assert_eq!(retrieve(&store, "1", Some(b"abc")).unwrap_err(), PasteError::NotFound);
    assert_eq!(retrieve(&store, "abcdefgh", None).unwrap().id, 1);
}

#[test]
fn a_paste_whose_slug_is_a_numeral_is_read_by_that_slug() {
    let mut store = PasteStore::new();
    create(&mut store, payload(Some("abcdefgh"), None, None)).unwrap();
    create(&mut store, payload(Some("00000001"), None, None)).unwrap();
    assert_eq!(retrieve(&store, "00000001", None).unwrap().id, 2);
}

#[test]
fn a_missing_paste_is_reported_before_the_guard() {
    let mut store = PasteStore::new();
    create(&mut store, payload(Some("fixed-slug-1"), Some("abc"), None)).unwrap();
    assert_eq!(retrieve(&store, "fixed-slug-2", None).unwrap_err(), PasteError::NotFound);
    assert_eq!(retrieve(&store, "fixed-slug-2", Some(b"abc")).unwrap_err(), PasteError::NotFound);
    assert_eq!(retrieve(&store, "fixed-slug-2", Some(b"wrong")).unwrap_err(), PasteError::NotFound);
}

#[test]
fn look_up_takes_a_slug_or_an_id() {
    let mut store = PasteStore::new();
    create(&mut store, payload(Some("00000002"), None, None)).unwrap();
    create(&mut store, payload(Some("fixed-slug-2"), None, None)).unwrap();
    assert_eq!(look_up(&store, "00000002").unwrap().unwrap().id, 1);
    assert_eq!(look_up(&store, "2").unwrap().unwrap().slug, "fixed-slug-2");
    assert_eq!(look_up(&store, "1").unwrap().unwrap().slug, "00000002");
    assert!(look_up(&store, "3").unwrap().is_none());
    assert!(look_up(&store, "fixed-slug-3").unwrap().is_none());
}

fn slugs(list: &[&str]) -> Vec<String> {
    list.iter().map(|slug| slug.to_string()).collect()
}

fn store_with(taken: &[&str]) -> PasteStore {
    let mut store = PasteStore::new();
    for slug in taken {
        create(&mut store, payload(Some(slug), None, None)).unwrap();
    }
    store
}

#[test]
fn create_with_uses_the_first_fresh_slug() {
    let mut store = PasteStore::new();
    let body = create_with(&mut store, payload(None, None, None), slugs(&["aaaaaaaa", "bbbbbbbb"]))
        .unwrap();
    assert_eq!(body.slug, "aaaaaaaa");
    assert_eq!(body.id, 1);
    assert_eq!(store.len(), 1);
}

#[test]
fn create_with_retries_with_the_next_fresh_slug() {
    let mut store = store_with(&["aaaaaaaa"]);
    let body = create_with(&mut store, payload(None, None, None), slugs(&["aaaaaaaa", "bbbbbbbb"]))
        .unwrap();
    assert_eq!(body.slug, "bbbbbbbb");
    assert_eq!(body.id, 2);
    assert_eq!(body.title, "T");
    assert_eq!(body.content, "C");
    assert_eq!(store.len(), 2);
}

#[test]
fn create_with_retries_three_times() {
    let mut store = store_with(&["aaaaaaaa", "bbbbbbbb", "cccccccc"]);
    let fresh = slugs(&["aaaaaaaa", "bbbbbbbb", "cccccccc", "dddddddd"]);
    let body = create_with(&mut store, payload(None, None, None), fresh).unwrap();
    assert_eq!(body.slug, "dddddddd");
    assert_eq!(store.len(), 4);
}

#[test]
fn create_with_gives_up_after_three_retries() {
    let mut store = store_with(&["aaaaaaaa", "bbbbbbbb", "cccccccc", "dddddddd"]);
    let fresh = slugs(&["aaaaaaaa", "bbbbbbbb", "cccccccc", "dddddddd", "eeeeeeee"]);
    assert_eq!(
        create_with(&mut store, payload(None, None, None), fresh).unwrap_err(),
        PasteError::Storage
    );
    assert_eq!(store.len(), 4);
    assert!(!store.exists_by_slug("eeeeeeee"));
}

#[test]
fn create_with_gives_up_where_the_slugs_run_out() {
    let mut store = store_with(&["aaaaaaaa"]);
    assert_eq!(
        create_with(&mut store, payload(None, None, None), slugs(&["aaaaaaaa"])).unwrap_err(),
        PasteError::Storage
    );
    assert_eq!(
        create_with(&mut store, payload(None, None, None), Vec::new()).unwrap_err(),
        PasteError::Storage
    );
    assert_eq!(store.len(), 1);
}

#[test]
fn create_with_does_not_retry_a_slug_that_was_asked_for() {
    let mut store = store_with(&["fixed-slug-1"]);
    assert_eq!(
        create_with(&mut store, payload(Some("fixed-slug-1"), None, None), slugs(&["bbbbbbbb"]))
            .unwrap_err(),
        PasteError::Conflict
    );
    assert_eq!(store.len(), 1);
    assert!(!store.exists_by_slug("bbbbbbbb"));
}

#[test]
fn create_with_needs_no_fresh_slug_where_one_is_asked_for() {
    let mut store = PasteStore::new();
    let body =
        create_with(&mut store, payload(Some("fixed-slug-1"), None, None), Vec::new()).unwrap();
    assert_eq!(body.slug, "fixed-slug-1");
}

#[test]
fn create_with_rejects_a_fresh_slug_that_is_too_short() {
    let mut store = PasteStore::new();
    assert_eq!(
        create_with(&mut store, payload(None, None, None), slugs(&["short"])).unwrap_err(),
        PasteError::Validation
    );
    assert_eq!(store.len(), 0);
}

#[test]
fn delete_without_an_edit_key_needs_no_secret() {
    let mut store = PasteStore::new();
    create(&mut store, payload(Some("fixed-slug-1"), Some("abc"), None)).unwrap();
    assert_eq!(delete(&mut store, "fixed-slug-1", None), Ok(()));
    assert_eq!(store.len(), 0);
}

#[test]
fn edit_key_guards_deleting() {
    let mut store = PasteStore::new();
    create(&mut store, payload(Some("fixed-slug-1"), None, Some("xyz"))).unwrap();
    assert_eq!(
        delete(&mut store, "fixed-slug-1", None),
        Err(PasteError::SecretRequired(KeyKind::Edit))
    );
    assert_eq!(
        delete(&mut store, "fixed-slug-1", Some(b"wrong")),
        Err(PasteError::InvalidSecret(KeyKind::Edit))
    );
    assert_eq!(store.len(), 1);
    assert_eq!(delete(&mut store, "1", Some(b"xyz")), Ok(()));
    assert_eq!(store.len(), 0);
}

#[test]
fn delete_of_an_unknown_paste_is_not_found() {
    let mut store = PasteStore::new();
    assert_eq!(delete(&mut store, "fixed-slug-1", None), Err(PasteError::NotFound));
    assert_eq!(delete(&mut store, "1", Some(b"xyz")), Err(PasteError::NotFound));
}

#[test]
fn many_pastes_without_slugs_get_distinct_slugs_and_ids() {
    let mut store = PasteStore::new();
    let mut slugs: Vec<String> = Vec::new();
    for i in 0..200u32 {
        let body = create(&mut store, payload(None, None, None)).unwrap();
        assert_eq!(body.id, i + 1);
        slugs.push(body.slug);
    }
    slugs.sort();
    slugs.dedup();
    assert_eq!(slugs.len(), 200);
    assert_eq!(store.len(), 200);
}
