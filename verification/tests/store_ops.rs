use editor_cms::models::Article;
use editor_cms::payloads::{CreateArticleDbReq, CreateEditorReq};
use editor_cms::store::{PersistenceError, Store};

fn add(store: &mut Store, name: &str, call_name: &str, digest: &str) -> i64 {
    let e = store
        .add_editor(CreateEditorReq {
            editor_name: name.to_string(),
            editor_call_name: call_name.to_string(),
            password: digest.to_string(),
        })
        .expect("fresh name must be accepted");
    e.editor_id
}

#[test]
fn add_editor_assigns_fresh_ids_and_returns_the_row() {
    let mut store = Store::new();
    let a = add(&mut store, "alice", "Alice", "da");
    let b = add(&mut store, "bob", "Bob", "db");
    assert_ne!(a, b);
    let e = store.find_editor(&"bob".to_string()).expect("bob was inserted");
    assert_eq!(e.editor_id, b);
    assert_eq!(e.editor_call_name, "Bob");
    assert_eq!(e.password, "db");
}

#[test]
fn add_editor_rejects_a_duplicate_name() {
    let mut store = Store::new();
    add(&mut store, "alice", "Alice", "da");
    let r = store.add_editor(CreateEditorReq {
        editor_name: "alice".to_string(),
        editor_call_name: "Alicia".to_string(),
        password: "dx".to_string(),
    });
    assert!(matches!(r, Err(PersistenceError::ConstraintViolation)));
    let e = store.find_editor(&"alice".to_string()).expect("first row kept");
    assert_eq!(e.editor_call_name, "Alice");
}

#[test]
fn find_editor_on_empty_store_is_absent() {
    let store = Store::new();
    assert!(store.find_editor(&"alice".to_string()).is_none());
}

#[test]
fn update_password_succeeds_even_for_a_missing_name() {
    let mut store = Store::new();
    assert!(store.update_password("ghost".to_string(), "d".to_string()));
}

#[test]
fn update_password_replaces_only_the_matching_row() {
    let mut store = Store::new();
    add(&mut store, "alice", "Alice", "da");
    add(&mut store, "bob", "Bob", "db");
    assert!(store.update_password("alice".to_string(), "da2".to_string()));
    assert_eq!(store.find_editor(&"alice".to_string()).unwrap().password, "da2");
    assert_eq!(store.find_editor(&"bob".to_string()).unwrap().password, "db");
}

#[test]
fn articles_are_scoped_to_their_author() {
    let mut store = Store::new();
    let a = add(&mut store, "alice", "Alice", "da");
    let b = add(&mut store, "bob", "Bob", "db");
    store
        .add_article(CreateArticleDbReq {
            author_id: a,
            title: "t1".to_string(),
            content: "c1".to_string(),
        })
        .expect("insert must succeed");
    store
        .add_article(CreateArticleDbReq {
            author_id: b,
            title: "tb".to_string(),
            content: "cb".to_string(),
        })
        .expect("insert must succeed");

    let alices: Vec<Article> = store.get_titles(a);
    assert_eq!(alices.len(), 1);
    assert_eq!(alices[0].title, "t1");
    assert_eq!(alices[0].author_id, a);
    assert_eq!(alices[0].content.as_deref(), Some("c1"));
    assert_eq!(store.get_titles(b).len(), 1);
    assert_eq!(store.get_titles(777).len(), 0);
}

#[test]
fn find_update_delete_article_round_trip() {
    let mut store = Store::new();
    let a = add(&mut store, "alice", "Alice", "da");
    store
        .add_article(CreateArticleDbReq {
            author_id: a,
            title: "t1".to_string(),
            content: "c1".to_string(),
        })
        .expect("insert must succeed");
    let id = store.get_titles(a)[0].id;

    assert!(store.update_article(id, "t2".to_string(), "c2".to_string()));
    let art = store.find_article(id).expect("row exists");
    assert_eq!(art.title, "t2");
    assert_eq!(art.content.as_deref(), Some("c2"));

    assert!(store.delete_article(id));
    assert!(store.find_article(id).is_none());
    assert!(store.delete_article(id));
    assert!(store.update_article(id, "t3".to_string(), "c3".to_string()));
    assert!(store.find_article(id).is_none());
}

#[test]
fn add_article_rejects_an_unknown_author() {
    let mut store = Store::new();
    let a = add(&mut store, "alice", "Alice", "da");
    let r = store.add_article(CreateArticleDbReq {
        author_id: a + 1,
        title: "t1".to_string(),
        content: "c1".to_string(),
    });
    assert!(matches!(r, Err(PersistenceError::ConstraintViolation)));
    assert_eq!(store.get_titles(a).len(), 0);
    assert_eq!(store.get_titles(a + 1).len(), 0);
}
