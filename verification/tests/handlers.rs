use editor_cms::actions::{
    add_editor, create_article, delete_article, get_article, get_editor, get_title_list, login,
    update_article, update_password,
};
use editor_cms::models::{Article, Editor, TitlesRes};
use editor_cms::payloads::{
    CreateArticleReq, CreateEditorReq, DeleteArticleReq, LoginReq, UpdateArticleReq,
    UpdatePasswordReq,
};
use editor_cms::responses::{Response, ResponseBody, SessionDirective};
use editor_cms::store::Store;

fn register(store: &mut Store, name: &str, call_name: &str, password: &str) -> Response {
    add_editor(
        store,
        CreateEditorReq {
            editor_name: name.to_string(),
            editor_call_name: call_name.to_string(),
            password: password.to_string(),
        },
    )
}

fn session(name: &str) -> Option<String> {
    Some(name.to_string())
}

fn fetch_editor(store: &Store, name: &str) -> Editor {
    let r = get_editor(store, name.to_string());
    assert_eq!(r.status, 200);
    match r.body {
        ResponseBody::EditorJson(e) => e,
        _ => panic!("expected an editor body"),
    }
}

fn fetch_titles(store: &Store, name: &str) -> Vec<TitlesRes> {
    let r = get_title_list(store, session(name));
    assert_eq!(r.status, 200);
    match r.body {
        ResponseBody::TitleList(ts) => ts,
        _ => panic!("expected a title list body"),
    }
}

fn fetch_article(store: &Store, id: i64) -> Article {
    let r = get_article(store, id, session("anyone-with-a-session"));
    assert_eq!(r.status, 200);
    match r.body {
        ResponseBody::ArticleJson(a) => a,
        _ => panic!("expected an article body"),
    }
}

#[test]
fn register_then_fetch_returns_call_name_and_digest() {
    let mut store = Store::new();
    let r = register(&mut store, "alice", "Alice", "p1");
    assert_eq!(r.status, 201);
    let e = fetch_editor(&store, "alice");
    assert_eq!(e.editor_name, "alice");
    assert_eq!(e.editor_call_name, "Alice");
    assert_ne!(e.password, "p1");
    assert_eq!(e.password.len(), 60);
    assert!(e.password.starts_with('$'));
}

#[test]
fn fetch_unknown_editor_is_not_found() {
    let store = Store::new();
    let r = get_editor(&store, "nobody".to_string());
    assert_eq!(r.status, 404);
    assert!(matches!(r.body, ResponseBody::Empty));
}

#[test]
fn login_with_correct_password_sets_session() {
    let mut store = Store::new();
    register(&mut store, "alice", "Alice", "p1");
    let r = login(
        &store,
        LoginReq { editor_name: "alice".to_string(), password: "p1".to_string() },
    );
    assert_eq!(r.status, 204);
    match r.session {
        SessionDirective::Remember(id) => assert_eq!(id, "alice"),
        _ => panic!("expected the session to remember the editor"),
    }
}

#[test]
fn login_with_wrong_password_is_unauthorized() {
    let mut store = Store::new();
    register(&mut store, "alice", "Alice", "p1");
    let r = login(
        &store,
        LoginReq { editor_name: "alice".to_string(), password: "p2".to_string() },
    );
    assert_eq!(r.status, 401);
    assert!(matches!(r.session, SessionDirective::Untouched));
}

#[test]
fn login_with_unknown_name_is_not_found() {
    let store = Store::new();
    let r = login(
        &store,
        LoginReq { editor_name: "ghost".to_string(), password: "p1".to_string() },
    );
    assert_eq!(r.status, 404);
    assert!(matches!(r.session, SessionDirective::Untouched));
}

#[test]
fn create_article_then_titles_lists_it_exactly_once() {
    let mut store = Store::new();
    register(&mut store, "alice", "Alice", "p1");
    register(&mut store, "bob", "Bob", "p2");
    let r = create_article(
        &mut store,
        session("alice"),
        CreateArticleReq { title: "t1".to_string(), content: "c1".to_string() },
    );
    assert_eq!(r.status, 201);
    let r = create_article(
        &mut store,
        session("bob"),
        CreateArticleReq { title: "tb".to_string(), content: "cb".to_string() },
    );
    assert_eq!(r.status, 201);

    let alice_titles = fetch_titles(&store, "alice");
    assert_eq!(alice_titles.len(), 1);
    assert_eq!(alice_titles[0].title, "t1");

    let bob_titles = fetch_titles(&store, "bob");
    assert_eq!(bob_titles.len(), 1);
    assert_eq!(bob_titles[0].title, "tb");
    assert_ne!(alice_titles[0].article_id, bob_titles[0].article_id);
}

#[test]
fn delete_article_then_fetch_is_not_found() {
    let mut store = Store::new();
    register(&mut store, "alice", "Alice", "p1");
    create_article(
        &mut store,
        session("alice"),
        CreateArticleReq { title: "t1".to_string(), content: "c1".to_string() },
    );
    let id = fetch_titles(&store, "alice")[0].article_id;
    assert_eq!(fetch_article(&store, id).title, "t1");

    let r = delete_article(&mut store, session("alice"), DeleteArticleReq { id });
    assert_eq!(r.status, 204);
    let r = get_article(&store, id, session("alice"));
    assert_eq!(r.status, 404);
    assert_eq!(fetch_titles(&store, "alice").len(), 0);
}

#[test]
fn update_password_with_wrong_old_leaves_digest_unchanged() {
    let mut store = Store::new();
    register(&mut store, "alice", "Alice", "p1");
    let before = fetch_editor(&store, "alice").password;

    let r = update_password(
        &mut store,
        session("alice"),
        UpdatePasswordReq { password: "wrong".to_string(), password_again: "p9".to_string() },
    );
    assert_eq!(r.status, 401);
    assert!(matches!(r.session, SessionDirective::Forget));
    assert_eq!(fetch_editor(&store, "alice").password, before);

    let r = login(
        &store,
        LoginReq { editor_name: "alice".to_string(), password: "p1".to_string() },
    );
    assert_eq!(r.status, 204);
}

#[test]
fn update_password_with_correct_old_replaces_digest() {
    let mut store = Store::new();
    register(&mut store, "alice", "Alice", "p1");
    let r = update_password(
        &mut store,
        session("alice"),
        UpdatePasswordReq { password: "p1".to_string(), password_again: "p2".to_string() },
    );
    assert_eq!(r.status, 204);

    let r = login(
        &store,
        LoginReq { editor_name: "alice".to_string(), password: "p2".to_string() },
    );
    assert_eq!(r.status, 204);
    let r = login(
        &store,
        LoginReq { editor_name: "alice".to_string(), password: "p1".to_string() },
    );
    assert_eq!(r.status, 401);
}

#[test]
fn update_password_without_session_is_unauthorized() {
    let mut store = Store::new();
    register(&mut store, "alice", "Alice", "p1");
    let r = update_password(
        &mut store,
        None,
        UpdatePasswordReq { password: "p1".to_string(), password_again: "p2".to_string() },
    );
    assert_eq!(r.status, 401);
    assert!(matches!(r.session, SessionDirective::Forget));
}

#[test]
fn update_password_for_vanished_editor_is_not_found() {
    let mut store = Store::new();
    register(&mut store, "alice", "Alice", "p1");
    let r = update_password(
        &mut store,
        session("ghost"),
        UpdatePasswordReq { password: "p1".to_string(), password_again: "p2".to_string() },
    );
    assert_eq!(r.status, 404);
}

#[test]
fn article_handlers_require_a_session() {
    let mut store = Store::new();
    register(&mut store, "alice", "Alice", "p1");
    create_article(
        &mut store,
        session("alice"),
        CreateArticleReq { title: "t1".to_string(), content: "c1".to_string() },
    );
    let id = fetch_titles(&store, "alice")[0].article_id;

    let r = create_article(
        &mut store,
        None,
        CreateArticleReq { title: "t2".to_string(), content: "c2".to_string() },
    );
    assert_eq!(r.status, 401);
    assert!(matches!(r.session, SessionDirective::Forget));
    let r = get_title_list(&store, None);
    assert_eq!(r.status, 401);
    let r = get_article(&store, id, None);
    assert_eq!(r.status, 401);
    let r = update_article(
        &mut store,
        None,
        UpdateArticleReq { id, title: "x".to_string(), content: "y".to_string() },
    );
    assert_eq!(r.status, 401);
    let r = delete_article(&mut store, None, DeleteArticleReq { id });
    assert_eq!(r.status, 401);

    let kept = fetch_article(&store, id);
    assert_eq!(kept.title, "t1");
    assert_eq!(kept.content.as_deref(), Some("c1"));
}

#[test]
fn create_article_for_unknown_session_editor_is_not_found() {
    let mut store = Store::new();
    let r = create_article(
        &mut store,
        session("ghost"),
        CreateArticleReq { title: "t1".to_string(), content: "c1".to_string() },
    );
    assert_eq!(r.status, 404);
}

#[test]
fn update_article_replaces_title_and_content() {
    let mut store = Store::new();
    register(&mut store, "alice", "Alice", "p1");
    create_article(
        &mut store,
        session("alice"),
        CreateArticleReq { title: "t1".to_string(), content: "c1".to_string() },
    );
    let id = fetch_titles(&store, "alice")[0].article_id;

    let r = update_article(
        &mut store,
        session("alice"),
        UpdateArticleReq { id, title: "t1b".to_string(), content: "c1b".to_string() },
    );
    assert_eq!(r.status, 204);
    let a = fetch_article(&store, id);
    assert_eq!(a.title, "t1b");
    assert_eq!(a.content.as_deref(), Some("c1b"));
}

#[test]
fn update_and_delete_of_missing_id_are_no_op_success() {
    let mut store = Store::new();
    register(&mut store, "alice", "Alice", "p1");
    let r = update_article(
        &mut store,
        session("alice"),
        UpdateArticleReq { id: 99, title: "x".to_string(), content: "y".to_string() },
    );
    assert_eq!(r.status, 204);
    let r = delete_article(&mut store, session("alice"), DeleteArticleReq { id: 99 });
    assert_eq!(r.status, 204);
    assert_eq!(fetch_titles(&store, "alice").len(), 0);
}

#[test]
fn duplicate_registration_is_an_internal_error() {
    let mut store = Store::new();
    assert_eq!(register(&mut store, "alice", "Alice", "p1").status, 201);
    let r = register(&mut store, "alice", "Alicia", "p2");
    assert_eq!(r.status, 500);
    assert_eq!(fetch_editor(&store, "alice").editor_call_name, "Alice");
}

#[test]
fn scenario_register_login_post_list() {
    let mut store = Store::new();
    let r = register(&mut store, "alice", "Alice", "p1");
    assert_eq!(r.status, 201);

    let e = fetch_editor(&store, "alice");
    assert_eq!(e.editor_call_name, "Alice");

    let r = login(
        &store,
        LoginReq { editor_name: "alice".to_string(), password: "p1".to_string() },
    );
    assert_eq!(r.status, 204);
    let auth = match r.session {
        SessionDirective::Remember(id) => Some(id),
        _ => panic!("expected the session to remember the editor"),
    };

    let r = create_article(
        &mut store,
        auth.clone(),
        CreateArticleReq { title: "t1".to_string(), content: "c1".to_string() },
    );
    assert_eq!(r.status, 201);

    let r = get_title_list(&store, auth);
    assert_eq!(r.status, 200);
    match r.body {
        ResponseBody::TitleList(ts) => {
            assert_eq!(ts.len(), 1);
            assert_eq!(ts[0].title, "t1");
            assert!(ts[0].article_id >= 1);
        },
        _ => panic!("expected a title list body"),
    }
}

#[test]
fn login_against_an_ill_formed_stored_digest_is_internal_error() {
    let mut store = Store::new();
    store
        .add_editor(CreateEditorReq {
            editor_name: "alice".to_string(),
            editor_call_name: "Alice".to_string(),
            password: "not-a-digest".to_string(),
        })
        .expect("fresh name must be accepted");
    let r = login(
        &store,
        LoginReq { editor_name: "alice".to_string(), password: "p1".to_string() },
    );
    assert_eq!(r.status, 500);
    assert!(matches!(r.session, SessionDirective::Untouched));
}
