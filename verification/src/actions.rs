//! The request handlers, one per API operation. Each orchestrates the
//! session check, the store calls, and the hashing capability, and its
//! contract states exactly which status comes back on which input and how
//! the store changes.
//!
//! Authenticated handlers follow one session policy: when an identity is
//! present the response re-remembers it (sliding the expiry window); when it
//! is absent the cookie is cleared and the request is unauthorized.

use vstd::prelude::*;
use crate::models::{Editor, EditorModel, ArticleModel, TitleModel, TitlesRes, title_models};
use crate::payloads::{
    CreateEditorReq, LoginReq, UpdatePasswordReq, CreateArticleReq, CreateArticleDbReq,
    UpdateArticleReq, DeleteArticleReq,
};
use crate::responses::{Response, ResponseBody, SessionDirective};
use crate::store::{
    Store, has_editor, has_editor_id, has_article, author_articles, spec_add_editor,
    spec_update_password, spec_add_article, spec_update_article, spec_delete_article,
};
use crate::hashing::{digest_matches, digest_well_formed, hash_password, verify_password};

verus! {

/// Whether `eds` holds an editor named `name` whose stored digest accepts
/// `password`: the condition under which a login succeeds.
pub open spec fn login_ok(eds: Seq<EditorModel>, name: Seq<char>, password: Seq<char>) -> bool {
    exists|i: int|
        0 <= i < eds.len() && (#[trigger] eds[i]).editor_name == name && digest_matches(
            password,
            eds[i].password,
        )
}

/// Whether `eds` holds an editor named `name` whose stored digest the
/// verifier can parse at all: the condition under which a password check
/// against that editor answers instead of failing.
pub open spec fn stored_digest_ok(eds: Seq<EditorModel>, name: Seq<char>) -> bool {
    exists|i: int|
        0 <= i < eds.len() && (#[trigger] eds[i]).editor_name == name && digest_well_formed(
            eds[i].password,
        )
}

/// The title listing for `author`: id and title of each of the author's
/// articles, in store order.
pub open spec fn spec_titles(arts: Seq<ArticleModel>, author: int) -> Seq<TitleModel> {
    author_articles(arts, author).map_values(
        |a: ArticleModel| TitleModel { article_id: a.id, title: a.title },
    )
}

/// Under the store invariant, every editor in `eds` named `name` is the
/// one element `e`, itself in `eds` under that name.
proof fn lemma_unique_name(eds: Seq<EditorModel>, name: Seq<char>, e: EditorModel)
    requires
        forall|i: int, j: int| 0 <= i < j < eds.len() ==> eds[i].editor_name != eds[j].editor_name,
        eds.contains(e),
        e.editor_name == name,
    ensures
        forall|i: int| 0 <= i < eds.len() && (#[trigger] eds[i]).editor_name == name ==> eds[i] == e,
{
    let j = choose|j: int| 0 <= j < eds.len() && eds[j] == e;
    assert forall|i: int|
        0 <= i < eds.len() && (#[trigger] eds[i]).editor_name == name implies eds[i] == e by {
        if i < j {
            assert(eds[i].editor_name != eds[j].editor_name);
        } else if j < i {
            assert(eds[j].editor_name != eds[i].editor_name);
        }
    }
}

/// Fetch an editor by its unique login name. No session is required.
/// The row is returned whole, so the response carries the stored password
/// digest (never a plaintext); callers that serialize it expose the digest.
pub fn get_editor(store: &Store, editor_id: String) -> (r: Response)
    requires
        store.wf(),
    ensures
        r.session is Untouched,
        r.status == 200 <==> has_editor(store@.editors, editor_id@),
        r.status == 200 || r.status == 404,
        r.status == 200 ==> (r.body matches ResponseBody::EditorJson(e) && e@.editor_name
            == editor_id@ && store@.editors.contains(e@)),
        r.status == 404 ==> r.body is Empty,
{
    match store.find_editor(&editor_id) {
        Some(editor) => {
            proof {
                let j = choose|j: int|
                    0 <= j < store@.editors.len() && store@.editors[j] == editor@;
                assert(store@.editors[j].editor_name == editor_id@);
            }
            Response {
                status: 200,
                body: ResponseBody::EditorJson(editor),
                session: SessionDirective::Untouched,
            }
        },
        None => Response {
            status: 404,
            body: ResponseBody::Empty,
            session: SessionDirective::Untouched,
        },
    }
}

/// Turn the verifier's answer into the login response: on a match the
/// session remembers the editor's name, otherwise the request is
/// unauthorized and the session is left alone.
pub fn complete_login(editor: &Editor, valid: bool) -> (r: Response)
    ensures
        r.body is Empty,
        valid ==> r.status == 204 && (r.session matches SessionDirective::Remember(id) && id@
            == editor@.editor_name),
        !valid ==> r.status == 401 && r.session is Untouched,
{
    if valid {
        Response {
            status: 204,
            body: ResponseBody::Empty,
            session: SessionDirective::Remember(editor.editor_name.clone()),
        }
    } else {
        Response { status: 401, body: ResponseBody::Empty, session: SessionDirective::Untouched }
    }
}

/// Log in: look the editor up by name and check the password against the
/// stored digest. An unknown name is not found; a stored digest the
/// verifier cannot parse is an internal error.
pub fn login(store: &Store, login_req: LoginReq) -> (r: Response)
    requires
        store.wf(),
    ensures
        r.body is Empty,
        r.status == 204 || r.status == 401 || r.status == 404 || r.status == 500,
        r.status == 404 <==> !has_editor(store@.editors, login_req.editor_name@),
        r.status == 500 <==> has_editor(store@.editors, login_req.editor_name@)
            && !stored_digest_ok(store@.editors, login_req.editor_name@),
        r.status == 204 <==> stored_digest_ok(store@.editors, login_req.editor_name@) && login_ok(
            store@.editors,
            login_req.editor_name@,
            login_req.password@,
        ),
        r.status == 401 <==> stored_digest_ok(store@.editors, login_req.editor_name@) && !login_ok(
            store@.editors,
            login_req.editor_name@,
            login_req.password@,
        ),
        r.status == 204 <==> (r.session matches SessionDirective::Remember(id) && id@
            == login_req.editor_name@),
        r.status != 204 ==> r.session is Untouched,
{
    let editor = match store.find_editor(&login_req.editor_name) {
        Some(e) => e,
        None => {
            return Response {
                status: 404,
                body: ResponseBody::Empty,
                session: SessionDirective::Untouched,
            };
        },
    };
    proof {
        lemma_unique_name(store@.editors, login_req.editor_name@, editor@);
    }
    match verify_password(login_req.password.as_str(), editor.password.as_str()) {
        Err(_) => Response {
            status: 500,
            body: ResponseBody::Empty,
            session: SessionDirective::Untouched,
        },
        Ok(valid) => complete_login(&editor, valid),
    }
}

/// Registration with the digest already derived: insert the row and report
/// created, or an internal error when the store refuses (a duplicate name,
/// or an exhausted id space).
pub fn add_editor_hashed(
    store: &mut Store,
    editor_name: String,
    editor_call_name: String,
    digest: String,
) -> (r: Response)
    requires
        old(store).wf(),
    ensures
        final(store).wf(),
        r.body is Empty,
        r.session is Untouched,
        r.status == 201 || r.status == 500,
        r.status == 201 <==> !has_editor(old(store)@.editors, editor_name@) && old(store)@.next_editor_id < i64::MAX,
        r.status == 201 ==> final(store)@ == spec_add_editor(
            old(store)@,
            editor_name@,
            editor_call_name@,
            digest@,
        ),
        r.status == 500 ==> final(store)@ == old(store)@,
{
    let req = CreateEditorReq { editor_name, editor_call_name, password: digest };
    match store.add_editor(req) {
        Ok(_) => Response {
            status: 201,
            body: ResponseBody::Empty,
            session: SessionDirective::Untouched,
        },
        Err(_) => Response {
            status: 500,
            body: ResponseBody::Empty,
            session: SessionDirective::Untouched,
        },
    }
}

/// Register an editor: the password is hashed before storage, and the row
/// is inserted under a fresh id. A duplicate name or a hashing failure is
/// an internal error and leaves the store unchanged.
pub fn add_editor(store: &mut Store, info: CreateEditorReq) -> (r: Response)
    requires
        old(store).wf(),
    ensures
        final(store).wf(),
        r.body is Empty,
        r.session is Untouched,
        r.status == 201 || r.status == 500,
        r.status == 500 ==> final(store)@ == old(store)@,
        has_editor(old(store)@.editors, info.editor_name@) ==> r.status == 500,
        r.status == 201 ==> !has_editor(old(store)@.editors, info.editor_name@) && (exists|
            d: Seq<char>,
        |
            #[trigger] digest_matches(info.password@, d) && d.len() == 60 && d[0] == '$' && final(store)@ == spec_add_editor(old(store)@, info.editor_name@, info.editor_call_name@, d)),
{
    match hash_password(info.password.as_str()) {
        Err(_) => Response {
            status: 500,
            body: ResponseBody::Empty,
            session: SessionDirective::Untouched,
        },
        Ok(digest) => {
            let ghost d = digest@;
            let r = add_editor_hashed(store, info.editor_name, info.editor_call_name, digest);
            proof {
                if r.status == 201 {
                    assert(digest_matches(info.password@, d) && d.len() == 60 && d[0] == '$'
                        && final(store)@ == spec_add_editor(
                        old(store)@,
                        info.editor_name@,
                        info.editor_call_name@,
                        d,
                    ));
                }
            }
            r
        },
    }
}

/// Password update with the old password already checked and the new digest
/// already derived: persist the digest and re-remember the identity.
pub fn update_password_hashed(store: &mut Store, id: String, new_digest: String) -> (r: Response)
    requires
        old(store).wf(),
    ensures
        final(store).wf(),
        r.status == 204,
        r.body is Empty,
        (r.session matches SessionDirective::Remember(rid) && rid@ == id@),
        final(store)@ == spec_update_password(old(store)@, id@, new_digest@),
{
    let rid = id.clone();
    store.update_password(id, new_digest);
    Response { status: 204, body: ResponseBody::Empty, session: SessionDirective::Remember(rid) }
}

/// Update the session editor's password: the supplied current password is
/// verified against the stored digest; only on a match is the new password
/// hashed and persisted. On a mismatch the session is cleared and the store
/// is untouched; a stored digest the verifier cannot parse, or a failing
/// hash of the replacement, is an internal error.
pub fn update_password(store: &mut Store, auth_id: Option<String>, update_req: UpdatePasswordReq) -> (r:
    Response)
    requires
        old(store).wf(),
    ensures
        final(store).wf(),
        r.body is Empty,
        auth_id is None ==> r.status == 401 && r.session is Forget && final(store)@ == old(store)@,
        auth_id matches Some(id) ==> {
            &&& r.status == 204 || r.status == 401 || r.status == 404 || r.status == 500
            &&& (r.status == 404 <==> !has_editor(old(store)@.editors, id@))
            &&& (r.status == 401 <==> stored_digest_ok(old(store)@.editors, id@) && !login_ok(
                old(store)@.editors,
                id@,
                update_req.password@,
            ))
            &&& r.status == 401 ==> final(store)@ == old(store)@
            &&& r.status == 404 ==> final(store)@ == old(store)@
            &&& r.status == 500 ==> final(store)@ == old(store)@ && (!stored_digest_ok(
                old(store)@.editors,
                id@,
            ) || login_ok(old(store)@.editors, id@, update_req.password@))
            &&& r.status == 204 ==> stored_digest_ok(old(store)@.editors, id@) && login_ok(
                old(store)@.editors,
                id@,
                update_req.password@,
            ) && (exists|d: Seq<char>|
                #[trigger] digest_matches(update_req.password_again@, d) && final(store)@
                    == spec_update_password(old(store)@, id@, d))
            &&& (r.status == 401 <==> r.session is Forget)
            &&& r.status != 401 ==> (r.session matches SessionDirective::Remember(rid) && rid@
                == id@)
        },
{
    let id = match auth_id {
        Some(id) => id,
        None => {
            return Response {
                status: 401,
                body: ResponseBody::Empty,
                session: SessionDirective::Forget,
            };
        },
    };
    let editor = match store.find_editor(&id) {
        Some(e) => e,
        None => {
            return Response {
                status: 404,
                body: ResponseBody::Empty,
                session: SessionDirective::Remember(id),
            };
        },
    };
    proof {
        lemma_unique_name(old(store)@.editors, id@, editor@);
    }
    match verify_password(update_req.password.as_str(), editor.password.as_str()) {
        Err(_) => Response {
            status: 500,
            body: ResponseBody::Empty,
            session: SessionDirective::Remember(id),
        },
        Ok(valid) => {
            if valid {
                match hash_password(update_req.password_again.as_str()) {
                    Err(_) => Response {
                        status: 500,
                        body: ResponseBody::Empty,
                        session: SessionDirective::Remember(id),
                    },
                    Ok(new_digest) => {
                        let ghost d = new_digest@;
                        let r = update_password_hashed(store, id, new_digest);
                        proof {
                            assert(digest_matches(update_req.password_again@, d) && final(store)@
                                == spec_update_password(old(store)@, r.session->Remember_0@, d));
                        }
                        r
                    },
                }
            } else {
                Response {
                    status: 401,
                    body: ResponseBody::Empty,
                    session: SessionDirective::Forget,
                }
            }
        },
    }
}

/// Create an article for the session's editor: the author id is resolved
/// from the identity, and the row is inserted under a fresh id.
pub fn create_article(store: &mut Store, auth_id: Option<String>, create_req: CreateArticleReq) -> (r:
    Response)
    requires
        old(store).wf(),
    ensures
        final(store).wf(),
        r.body is Empty,
        auth_id is None ==> r.status == 401 && r.session is Forget && final(store)@ == old(store)@,
        auth_id matches Some(id) ==> {
            &&& r.status == 201 || r.status == 404 || r.status == 500
            &&& (r.status == 404 <==> !has_editor(old(store)@.editors, id@))
            &&& r.status != 404 ==> (r.session matches SessionDirective::Remember(rid) && rid@
                == id@)
            &&& r.status == 404 ==> final(store)@ == old(store)@ && (r.session matches
                SessionDirective::Remember(rid) && rid@ == id@)
            &&& r.status == 500 ==> final(store)@ == old(store)@ && old(store)@.next_article_id
                == i64::MAX
            &&& (r.status == 201 <==> has_editor(old(store)@.editors, id@) && old(store)@.next_article_id < i64::MAX)
            &&& r.status == 201 ==> (exists|i: int|
                0 <= i < old(store)@.editors.len() && (#[trigger] old(store)@.editors[i]).editor_name
                    == id@ && final(store)@ == spec_add_article(
                    old(store)@,
                    old(store)@.editors[i].editor_id,
                    create_req.title@,
                    create_req.content@,
                ))
        },
{
    let id = match auth_id {
        Some(id) => id,
        None => {
            return Response {
                status: 401,
                body: ResponseBody::Empty,
                session: SessionDirective::Forget,
            };
        },
    };
    let editor = match store.find_editor(&id) {
        Some(e) => e,
        None => {
            return Response {
                status: 404,
                body: ResponseBody::Empty,
                session: SessionDirective::Remember(id),
            };
        },
    };
    let add_data = CreateArticleDbReq {
        author_id: editor.editor_id,
        title: create_req.title,
        content: create_req.content,
    };
    proof {
        let j = choose|j: int| 0 <= j < old(store)@.editors.len() && old(store)@.editors[j] == editor@;
        assert(old(store)@.editors[j].editor_name == id@);
    }
    match store.add_article(add_data) {
        Ok(_) => Response {
            status: 201,
            body: ResponseBody::Empty,
            session: SessionDirective::Remember(id),
        },
        Err(_) => Response {
            status: 500,
            body: ResponseBody::Empty,
            session: SessionDirective::Remember(id),
        },
    }
}

/// List id and title of every article of the session's editor.
pub fn get_title_list(store: &Store, auth_id: Option<String>) -> (r: Response)
    requires
        store.wf(),
    ensures
        auth_id is None ==> r.status == 401 && r.session is Forget && r.body is Empty,
        auth_id matches Some(id) ==> {
            &&& r.status == 200 || r.status == 404
            &&& (r.status == 200 <==> has_editor(store@.editors, id@))
            &&& (r.session matches SessionDirective::Remember(rid) && rid@ == id@)
            &&& r.status == 404 ==> r.body is Empty
            &&& r.status == 200 ==> (exists|i: int|
                0 <= i < store@.editors.len() && (#[trigger] store@.editors[i]).editor_name == id@
                    && (r.body matches ResponseBody::TitleList(ts) && title_models(ts@)
                    == spec_titles(store@.articles, store@.editors[i].editor_id)))
        },
{
    let id = match auth_id {
        Some(id) => id,
        None => {
            return Response {
                status: 401,
                body: ResponseBody::Empty,
                session: SessionDirective::Forget,
            };
        },
    };
    let editor = match store.find_editor(&id) {
        Some(e) => e,
        None => {
            return Response {
                status: 404,
                body: ResponseBody::Empty,
                session: SessionDirective::Remember(id),
            };
        },
    };
    proof {
        let j = choose|j: int| 0 <= j < store@.editors.len() && store@.editors[j] == editor@;
        assert(store@.editors[j].editor_name == id@);
    }
    let titles_res = store.get_titles(editor.editor_id);
    let n = titles_res.len();
    let mut res_list: Vec<TitlesRes> = Vec::new();
    let mut i: usize = 0;
    while i < n
        invariant
            n == titles_res.len(),
            i <= n,
            res_list@.len() == i,
            forall|j: int|
                0 <= j < i ==> res_list@[j]@ == (TitleModel {
                    article_id: titles_res@[j]@.id,
                    title: titles_res@[j]@.title,
                }),
        decreases n - i,
    {
        let a = &titles_res[i];
        res_list.push(TitlesRes { article_id: a.id, title: a.title.clone() });
        i += 1;
    }
    proof {
        assert(title_models(res_list@) =~= spec_titles(store@.articles, editor@.editor_id));
    }
    Response {
        status: 200,
        body: ResponseBody::TitleList(res_list),
        session: SessionDirective::Remember(id),
    }
}

/// Fetch an article by id. Only the presence of a session is required; the
/// article need not belong to the session's editor.
pub fn get_article(store: &Store, article_id: i64, auth_id: Option<String>) -> (r: Response)
    requires
        store.wf(),
    ensures
        auth_id is None ==> r.status == 401 && r.session is Forget && r.body is Empty,
        auth_id matches Some(id) ==> {
            &&& r.status == 200 || r.status == 404
            &&& (r.status == 200 <==> has_article(store@.articles, article_id as int))
            &&& (r.session matches SessionDirective::Remember(rid) && rid@ == id@)
            &&& r.status == 200 ==> (r.body matches ResponseBody::ArticleJson(a) && a@.id
                == article_id as int && store@.articles.contains(a@))
            &&& r.status == 404 ==> r.body is Empty
        },
{
    let id = match auth_id {
        Some(id) => id,
        None => {
            return Response {
                status: 401,
                body: ResponseBody::Empty,
                session: SessionDirective::Forget,
            };
        },
    };
    match store.find_article(article_id) {
        Some(article) => {
            proof {
                let j = choose|j: int|
                    0 <= j < store@.articles.len() && store@.articles[j] == article@;
                assert(store@.articles[j].id == article_id as int);
            }
            Response {
                status: 200,
                body: ResponseBody::ArticleJson(article),
                session: SessionDirective::Remember(id),
            }
        },
        None => Response {
            status: 404,
            body: ResponseBody::Empty,
            session: SessionDirective::Remember(id),
        },
    }
}

/// Replace an article's title and content by id. Only the presence of a
/// session is checked, not that the session's editor owns the article; a
/// missing id is a no-op reported as success.
pub fn update_article(store: &mut Store, auth_id: Option<String>, update_req: UpdateArticleReq) -> (r:
    Response)
    requires
        old(store).wf(),
    ensures
        final(store).wf(),
        r.body is Empty,
        auth_id is None ==> r.status == 401 && r.session is Forget && final(store)@ == old(store)@,
        auth_id matches Some(id) ==> r.status == 204 && (r.session matches
            SessionDirective::Remember(rid) && rid@ == id@) && final(store)@ == spec_update_article(
            old(store)@,
            update_req.id as int,
            update_req.title@,
            update_req.content@,
        ),
{
    let id = match auth_id {
        Some(id) => id,
        None => {
            return Response {
                status: 401,
                body: ResponseBody::Empty,
                session: SessionDirective::Forget,
            };
        },
    };
    store.update_article(update_req.id, update_req.title, update_req.content);
    Response { status: 204, body: ResponseBody::Empty, session: SessionDirective::Remember(id) }
}

/// Delete an article by id. Only the presence of a session is checked, not
/// that the session's editor owns the article; a missing id is a no-op
/// reported as success.
pub fn delete_article(store: &mut Store, auth_id: Option<String>, delete_req: DeleteArticleReq) -> (r:
    Response)
    requires
        old(store).wf(),
    ensures
        final(store).wf(),
        r.body is Empty,
        auth_id is None ==> r.status == 401 && r.session is Forget && final(store)@ == old(store)@,
        auth_id matches Some(id) ==> r.status == 204 && (r.session matches
            SessionDirective::Remember(rid) && rid@ == id@) && final(store)@ == spec_delete_article(
            old(store)@,
            delete_req.id as int,
        ),
{
    let id = match auth_id {
        Some(id) => id,
        None => {
            return Response {
                status: 401,
                body: ResponseBody::Empty,
                session: SessionDirective::Forget,
            };
        },
    };
    store.delete_article(delete_req.id);
    Response { status: 204, body: ResponseBody::Empty, session: SessionDirective::Remember(id) }
}

} // verus!
