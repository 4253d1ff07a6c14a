use spaghetti_rs::lookup::Query;
use spaghetti_rs::pasta::NewPasta;
use spaghetti_rs::store::{DeleteOutcome, InsertOutcome, LookupOutcome, PasteStore};

fn paste(slug: &str) -> NewPasta {
    NewPasta {
        title: format!("title of {slug}"),
        content: format!("content of {slug}"),
        slug: slug.to_string(),
        view_key: None,
        edit_key: None,
    }
}

fn insert_ok(store: &mut PasteStore, slug: &str) -> u32 {
    match store.insert(&paste(slug)) {
        InsertOutcome::Inserted(stored) => stored.id,
        other => panic!("insert of {slug} ended in {other:?}"),
    }
}

#[test]
fn new_store_is_empty() {
    let store = PasteStore::new();
    assert_eq!(store.len(), 0);
    assert!(!store.exists_by_slug("fixed-slug-1"));
    assert!(store.find_by_slug("fixed-slug-1").is_none());
    assert!(store.find_by_id(1).is_none());
    assert!(store.resolve("1").is_none());
}

#[test]
fn insert_returns_the_stored_row() {
    let mut store = PasteStore::new();
    let new = NewPasta {
        title: "T".to_string(),
        content: "C".to_string(),
        slug: "fixed-slug-1".to_string(),
        view_key: Some("view-hash".to_string()),
        edit_key: Some("edit-hash".to_string()),
    };
    match store.insert(&new) {
        InsertOutcome::Inserted(stored) => {
            assert_eq!(stored.id, 1);
            assert_eq!(stored.title, "T");
            assert_eq!(stored.content, "C");
            assert_eq!(stored.slug, "fixed-slug-1");
            assert_eq!(stored.view_key.as_deref(), Some("view-hash"));
            assert_eq!(stored.edit_key.as_deref(), Some("edit-hash"));
        },
        other => panic!("{other:?}"),
    }
    assert_eq!(store.len(), 1);
}

#[test]
fn ids_count_up_from_one() {
    let mut store = PasteStore::new();
    assert_eq!(insert_ok(&mut store, "slug-one"), 1);
    assert_eq!(insert_ok(&mut store, "slug-two"), 2);
    assert_eq!(insert_ok(&mut store, "slug-three"), 3);
    assert_eq!(store.len(), 3);
}

#[test]
fn insert_under_a_taken_slug_is_a_conflict() {
    let mut store = PasteStore::new();
    insert_ok(&mut store, "fixed-slug-1");
    assert!(matches!(store.insert(&paste("fixed-slug-1")), InsertOutcome::Conflict));
    assert_eq!(store.len(), 1);
    // The conflict used up no id.
    assert_eq!(insert_ok(&mut store, "fixed-slug-2"), 2);
}

#[test]
fn a_conflict_leaves_the_first_paste_as_it_was() {
    let mut store = PasteStore::new();
    insert_ok(&mut store, "fixed-slug-1");
    let mut other = paste("fixed-slug-1");
    other.title = "another title".to_string();
    assert!(matches!(store.insert(&other), InsertOutcome::Conflict));
    let found = store.find_by_slug("fixed-slug-1").unwrap();
    assert_eq!(found.id, 1);
    assert_eq!(found.title, "title of fixed-slug-1");
}

#[test]
fn find_by_slug_and_by_id_find_the_same_paste() {
    let mut store = PasteStore::new();
    insert_ok(&mut store, "slug-one");
    insert_ok(&mut store, "slug-two");
    let by_slug = store.find_by_slug("slug-two").unwrap();
    assert_eq!(by_slug.id, 2);
    let by_id = store.find_by_id(2).unwrap();
    assert_eq!(by_id.slug, "slug-two");
    assert!(store.exists_by_slug("slug-one"));
    assert!(!store.exists_by_slug("slug-three"));
    assert!(store.find_by_id(3).is_none());
    assert!(store.find_by_id(0).is_none());
}

#[test]
fn find_answers_queries() {
    let mut store = PasteStore::new();
    insert_ok(&mut store, "slug-one");
    assert_eq!(store.find(&Query::Slug("slug-one".to_string())).unwrap().id, 1);
    assert_eq!(store.find(&Query::Id(1)).unwrap().slug, "slug-one");
    assert!(store.find(&Query::Slug("1".to_string())).is_none());
    assert!(store.find(&Query::Id(2)).is_none());
}

#[test]
fn an_identifier_is_a_slug_before_it_is_an_id() {
    let mut store = PasteStore::new();
    // The first paste has id 1 and the slug "00000002"; the second has id 2.
    insert_ok(&mut store, "00000002");
    insert_ok(&mut store, "slug-two");
    assert_eq!(store.resolve("00000002").unwrap().id, 1);
    assert_eq!(store.resolve("2").unwrap().id, 2);
    assert_eq!(store.resolve("1").unwrap().slug, "00000002");
    assert_eq!(store.resolve("slug-two").unwrap().id, 2);
    assert!(store.resolve("3").is_none());
    assert!(store.resolve("slug-three").is_none());
}

#[test]
fn delete_by_slug_removes_the_paste() {
    let mut store = PasteStore::new();
    insert_ok(&mut store, "slug-one");
    insert_ok(&mut store, "slug-two");
    assert!(store.delete_by_id_or_slug("slug-one"));
    assert_eq!(store.len(), 1);
    assert!(!store.exists_by_slug("slug-one"));
    assert!(store.exists_by_slug("slug-two"));
    assert!(store.find_by_id(1).is_none());
}

#[test]
fn delete_by_id_removes_the_paste() {
    let mut store = PasteStore::new();
    insert_ok(&mut store, "slug-one");
    insert_ok(&mut store, "slug-two");
    assert!(store.delete_by_id_or_slug("2"));
    assert_eq!(store.len(), 1);
    assert!(store.exists_by_slug("slug-one"));
    assert!(!store.exists_by_slug("slug-two"));
}

#[test]
fn delete_of_an_unknown_identifier_removes_nothing() {
    let mut store = PasteStore::new();
    insert_ok(&mut store, "slug-one");
    assert!(!store.delete_by_id_or_slug("slug-two"));
    assert!(!store.delete_by_id_or_slug("2"));
    assert!(!store.delete_by_id_or_slug(""));
    assert_eq!(store.len(), 1);
}

#[test]
fn delete_twice_removes_once() {
    let mut store = PasteStore::new();
    insert_ok(&mut store, "slug-one");
    assert!(store.delete_by_id_or_slug("slug-one"));
    assert!(!store.delete_by_id_or_slug("slug-one"));
    assert_eq!(store.len(), 0);
}

#[test]
fn an_id_is_not_given_out_again_after_a_delete() {
    let mut store = PasteStore::new();
    insert_ok(&mut store, "slug-one");
    insert_ok(&mut store, "slug-two");
    assert!(store.delete_by_id_or_slug("slug-two"));
    assert_eq!(insert_ok(&mut store, "slug-three"), 3);
    assert!(store.delete_by_id_or_slug("slug-one"));
    assert!(store.delete_by_id_or_slug("slug-three"));
    assert_eq!(store.len(), 0);
    assert_eq!(insert_ok(&mut store, "slug-four"), 4);
}

#[test]
fn a_slug_is_free_again_after_a_delete() {
    let mut store = PasteStore::new();
    insert_ok(&mut store, "fixed-slug-1");
    assert!(store.delete_by_id_or_slug("fixed-slug-1"));
    assert_eq!(insert_ok(&mut store, "fixed-slug-1"), 2);
}

#[test]
fn ask_answers_with_a_copy_of_the_paste() {
    let mut store = PasteStore::new();
    insert_ok(&mut store, "slug-one");
    match store.ask(&Query::Slug("slug-one".to_string())) {
        LookupOutcome::Found(paste) => {
            assert_eq!(paste.id, 1);
            assert_eq!(paste.slug, "slug-one");
            assert_eq!(paste.title, "title of slug-one");
            assert_eq!(paste.content, "content of slug-one");
        },
        other => panic!("{other:?}"),
    }
    assert!(matches!(store.ask(&Query::Id(1)), LookupOutcome::Found(_)));
    assert!(matches!(store.ask(&Query::Id(2)), LookupOutcome::Missing));
    assert!(matches!(store.ask(&Query::Slug("1".to_string())), LookupOutcome::Missing));
}

#[test]
fn delete_by_id_removes_only_that_paste() {
    let mut store = PasteStore::new();
    insert_ok(&mut store, "slug-one");
    insert_ok(&mut store, "slug-two");
    assert_eq!(store.delete_by_id(1), DeleteOutcome::Removed);
    assert_eq!(store.delete_by_id(1), DeleteOutcome::Missing);
    assert_eq!(store.delete_by_id(3), DeleteOutcome::Missing);
    assert_eq!(store.len(), 1);
    assert!(store.exists_by_slug("slug-two"));
}
