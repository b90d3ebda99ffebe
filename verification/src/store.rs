//! The persistence gateway: the two entity tables held as plain vectors,
//! with every operation specified as a transition on the store's model.
//!
//! Row ids are generated here, counting up from one. The store's invariant
//! keeps editor names unique (the login identifier), row ids unique, and
//! every article's author an existing editor.

use vstd::prelude::*;
use crate::models::{Editor, Article, EditorModel, ArticleModel, editor_models, article_models};
use crate::payloads::{CreateEditorReq, CreateArticleDbReq};

verus! {

broadcast use vstd::seq_lib::group_filter_ensures;

/// A failure of the backing store: a violated uniqueness constraint, or a
/// table whose id space is used up.
#[derive(Debug)]
pub enum PersistenceError {
    ConstraintViolation,
    KeySpaceExhausted,
}

/// The mathematical model of the whole store.
#[verifier::ext_equal]
pub ghost struct StoreModel {
    pub editors: Seq<EditorModel>,
    pub articles: Seq<ArticleModel>,
    pub next_editor_id: int,
    pub next_article_id: int,
}

/// Whether some editor in `eds` carries the login name `name`.
pub open spec fn has_editor(eds: Seq<EditorModel>, name: Seq<char>) -> bool {
    exists|i: int| 0 <= i < eds.len() && eds[i].editor_name == name
}

/// Whether some editor in `eds` carries the id `id`.
pub open spec fn has_editor_id(eds: Seq<EditorModel>, id: int) -> bool {
    exists|i: int| 0 <= i < eds.len() && eds[i].editor_id == id
}

/// Whether some article in `arts` carries the id `id`.
pub open spec fn has_article(arts: Seq<ArticleModel>, id: int) -> bool {
    exists|i: int| 0 <= i < arts.len() && arts[i].id == id
}

/// The articles of `arts` whose author is `author`, in store order.
pub open spec fn author_articles(arts: Seq<ArticleModel>, author: int) -> Seq<ArticleModel> {
    arts.filter(|a: ArticleModel| a.author_id == author)
}

/// The store's invariant: editor names are unique, ids are unique and lie
/// below the corresponding generator, the generators fit in an `i64`, and
/// every article's author id is the id of some editor (the foreign key:
/// every article has exactly one existing author, and editors are never
/// deleted).
pub open spec fn store_inv(m: StoreModel) -> bool {
    &&& forall|i: int, j: int|
        0 <= i < j < m.editors.len() ==> m.editors[i].editor_name != m.editors[j].editor_name
    &&& forall|i: int, j: int|
        0 <= i < j < m.editors.len() ==> m.editors[i].editor_id != m.editors[j].editor_id
    &&& forall|i: int|
        0 <= i < m.editors.len() ==> 1 <= #[trigger] m.editors[i].editor_id < m.next_editor_id
    &&& forall|i: int, j: int| 0 <= i < j < m.articles.len() ==> m.articles[i].id != m.articles[j].id
    &&& forall|i: int| 0 <= i < m.articles.len() ==> 1 <= #[trigger] m.articles[i].id < m.next_article_id
    &&& forall|i: int|
        0 <= i < m.articles.len() ==> has_editor_id(
            m.editors,
            (#[trigger] m.articles[i]).author_id,
        )
    &&& 1 <= m.next_editor_id <= i64::MAX
    &&& 1 <= m.next_article_id <= i64::MAX
}

/// Registration: a fresh editor row appended with the next generated id.
pub open spec fn spec_add_editor(
    m: StoreModel,
    name: Seq<char>,
    call_name: Seq<char>,
    digest: Seq<char>,
) -> StoreModel {
    StoreModel {
        editors: m.editors.push(
            EditorModel {
                editor_id: m.next_editor_id,
                editor_name: name,
                editor_call_name: call_name,
                password: digest,
            },
        ),
        next_editor_id: m.next_editor_id + 1,
        ..m
    }
}

/// Password update: the digest of every row named `name` (at most one, by
/// the invariant) is replaced; everything else is untouched.
pub open spec fn spec_update_password(m: StoreModel, name: Seq<char>, digest: Seq<char>) -> StoreModel {
    StoreModel {
        editors: Seq::new(
            m.editors.len(),
            |i: int|
                if m.editors[i].editor_name == name {
                    EditorModel { password: digest, ..m.editors[i] }
                } else {
                    m.editors[i]
                },
        ),
        ..m
    }
}

/// Article insertion: a fresh row appended with the next generated id and
/// the given author; the content column is always set.
pub open spec fn spec_add_article(
    m: StoreModel,
    author: int,
    title: Seq<char>,
    content: Seq<char>,
) -> StoreModel {
    StoreModel {
        articles: m.articles.push(
            ArticleModel {
                id: m.next_article_id,
                author_id: author,
                title: title,
                content: Some(content),
            },
        ),
        next_article_id: m.next_article_id + 1,
        ..m
    }
}

/// Article update: title and content of every row with id `id` (at most
/// one) are replaced; a missing id leaves the store unchanged.
pub open spec fn spec_update_article(
    m: StoreModel,
    id: int,
    title: Seq<char>,
    content: Seq<char>,
) -> StoreModel {
    StoreModel {
        articles: Seq::new(
            m.articles.len(),
            |i: int|
                if m.articles[i].id == id {
                    ArticleModel { title: title, content: Some(content), ..m.articles[i] }
                } else {
                    m.articles[i]
                },
        ),
        ..m
    }
}

/// Article deletion: every row with id `id` is dropped; a missing id leaves
/// the store unchanged.
pub open spec fn spec_delete_article(m: StoreModel, id: int) -> StoreModel {
    StoreModel { articles: m.articles.filter(|a: ArticleModel| a.id != id), ..m }
}

/// Filtering one more element either appends it or does not, depending on
/// the predicate.
pub proof fn lemma_filter_push<A>(s: Seq<A>, pred: spec_fn(A) -> bool, x: A)
    ensures
        s.push(x).filter(pred) == if pred(x) {
            s.filter(pred).push(x)
        } else {
            s.filter(pred)
        },
{
    reveal(Seq::filter);
    assert(s.push(x).drop_last() =~= s);
    assert(s.push(x).last() == x);
}

/// A filtered sequence keeps only elements of the source sequence, and keeps
/// pairwise-distinct article ids distinct.
pub proof fn lemma_filter_articles(s: Seq<ArticleModel>, pred: spec_fn(ArticleModel) -> bool)
    requires
        forall|i: int, j: int| 0 <= i < j < s.len() ==> s[i].id != s[j].id,
    ensures
        forall|i: int| 0 <= i < s.filter(pred).len() ==> s.contains(#[trigger] s.filter(pred)[i]),
        forall|i: int, j: int|
            0 <= i < j < s.filter(pred).len() ==> s.filter(pred)[i].id != s.filter(pred)[j].id,
    decreases s.len(),
{
    reveal(Seq::filter);
    if s.len() > 0 {
        let d = s.drop_last();
        lemma_filter_articles(d, pred);
        assert forall|i: int| 0 <= i < d.filter(pred).len() implies s.contains(
            #[trigger] d.filter(pred)[i],
        ) by {
            let j = choose|j: int| 0 <= j < d.len() && d[j] == d.filter(pred)[i];
            assert(s[j] == d.filter(pred)[i]);
        }
        if pred(s.last()) {
            assert(s.filter(pred) == d.filter(pred).push(s.last()));
            assert forall|i: int| 0 <= i < d.filter(pred).len() implies d.filter(pred)[i].id
                != s.last().id by {
                let j = choose|j: int| 0 <= j < d.len() && d[j] == d.filter(pred)[i];
                assert(s[j] == d.filter(pred)[i]);
                assert(s[j].id != s[s.len() - 1].id);
            }
            assert(s.contains(s.last()));
        }
    }
}

/// The persistence gateway over the two tables.
pub struct Store {
    editors: Vec<Editor>,
    articles: Vec<Article>,
    next_editor_id: i64,
    next_article_id: i64,
}

impl View for Store {
    type V = StoreModel;

    closed spec fn view(&self) -> StoreModel {
        StoreModel {
            editors: editor_models(self.editors@),
            articles: article_models(self.articles@),
            next_editor_id: self.next_editor_id as int,
            next_article_id: self.next_article_id as int,
        }
    }
}

impl Store {
    /// Whether the store satisfies its invariant.
    pub open spec fn wf(&self) -> bool {
        store_inv(self@)
    }

    /// An empty store, with both id generators at one.
    pub fn new() -> (s: Store)
        ensures
            s.wf(),
            s@.editors.len() == 0,
            s@.articles.len() == 0,
            s@.next_editor_id == 1,
            s@.next_article_id == 1,
    {
        Store { editors: Vec::new(), articles: Vec::new(), next_editor_id: 1, next_article_id: 1 }
    }

    /// Lookup by the unique login name; absent when no row matches.
    pub fn find_editor(&self, req_editor_id: &String) -> (r: Option<Editor>)
        requires
            self.wf(),
        ensures
            match r {
                Some(e) => e@.editor_name == req_editor_id@ && self@.editors.contains(e@),
                None => !has_editor(self@.editors, req_editor_id@),
            },
    {
        let n = self.editors.len();
        let mut i: usize = 0;
        while i < n
            invariant
                n == self.editors.len(),
                i <= n,
                forall|j: int| 0 <= j < i ==> self.editors@[j]@.editor_name != req_editor_id@,
            decreases n - i,
        {
            if self.editors[i].editor_name == *req_editor_id {
                let found = self.editors[i].duplicate();
                assert(self@.editors[i as int] == found@);
                return Some(found);
            }
            i += 1;
        }
        assert forall|k: int| 0 <= k < self@.editors.len() implies #[trigger] self@.editors[k].editor_name
            != req_editor_id@ by {
            assert(self@.editors[k] == self.editors@[k]@);
        }
        None
    }

    /// Registration: inserts a fresh row and returns it. Fails on a
    /// duplicate login name (the uniqueness constraint) or when the id
    /// space is used up; a failure leaves the store unchanged.
    pub fn add_editor(&mut self, req_editor_id: CreateEditorReq) -> (r: Result<
        Editor,
        PersistenceError,
    >)
        requires
            old(self).wf(),
        ensures
            final(self).wf(),
            match r {
                Ok(e) => !has_editor(old(self)@.editors, req_editor_id.editor_name@)
                    && old(self)@.next_editor_id < i64::MAX
                    && final(self)@ == spec_add_editor(
                    old(self)@,
                    req_editor_id.editor_name@,
                    req_editor_id.editor_call_name@,
                    req_editor_id.password@,
                ) && e@ == final(self)@.editors.last(),
                Err(pe) => final(self)@ == old(self)@ && (pe is ConstraintViolation <==> has_editor(
                    old(self)@.editors,
                    req_editor_id.editor_name@,
                )) && (pe is KeySpaceExhausted <==> !has_editor(
                    old(self)@.editors,
                    req_editor_id.editor_name@,
                ) && old(self)@.next_editor_id == i64::MAX),
            },
    {
        match self.find_editor(&req_editor_id.editor_name) {
            Some(_) => {
                return Err(PersistenceError::ConstraintViolation);
            },
            None => {},
        }
        if self.next_editor_id == i64::MAX {
            return Err(PersistenceError::KeySpaceExhausted);
        }
        let row = Editor {
            editor_id: self.next_editor_id,
            editor_name: req_editor_id.editor_name,
            editor_call_name: req_editor_id.editor_call_name,
            password: req_editor_id.password,
        };
        let returned = row.duplicate();
        self.editors.push(row);
        self.next_editor_id = self.next_editor_id + 1;
        assert(self@.editors =~= spec_add_editor(
            old(self)@,
            returned@.editor_name,
            returned@.editor_call_name,
            returned@.password,
        ).editors);
        assert(self@ =~= spec_add_editor(
            old(self)@,
            returned@.editor_name,
            returned@.editor_call_name,
            returned@.password,
        ));
        assert forall|i: int, j: int|
            0 <= i < j < self@.editors.len() implies self@.editors[i].editor_name
            != self@.editors[j].editor_name by {
            if j == self@.editors.len() - 1 {
                assert(!has_editor(old(self)@.editors, returned@.editor_name));
                assert(old(self)@.editors[i].editor_name != returned@.editor_name);
            }
        }
        assert forall|i: int| 0 <= i < self@.articles.len() implies has_editor_id(
            self@.editors,
            (#[trigger] self@.articles[i]).author_id,
        ) by {
            assert(has_editor_id(old(self)@.editors, old(self)@.articles[i].author_id));
            let j = choose|j: int|
                0 <= j < old(self)@.editors.len() && old(self)@.editors[j].editor_id == old(
                    self,
                )@.articles[i].author_id;
            assert(self@.editors[j] == old(self)@.editors[j]);
        }
        Ok(returned)
    }

    /// Updates the password digest of the row matching the login name; a
    /// missing name is a no-op reported as success, as the backing update
    /// counts matched rows rather than requiring one.
    pub fn update_password(&mut self, id: String, new_password: String) -> (r: bool)
        requires
            old(self).wf(),
        ensures
            final(self).wf(),
            r,
            final(self)@ == spec_update_password(old(self)@, id@, new_password@),
    {
        let n = self.editors.len();
        let mut out: Vec<Editor> = Vec::new();
        let mut i: usize = 0;
        while i < n
            invariant
                n == self.editors.len(),
                i <= n,
                out@.len() == i,
                forall|j: int|
                    0 <= j < i ==> out@[j]@ == (if self.editors@[j]@.editor_name == id@ {
                        EditorModel { password: new_password@, ..self.editors@[j]@ }
                    } else {
                        self.editors@[j]@
                    }),
            decreases n - i,
        {
            let e = &self.editors[i];
            if e.editor_name == id {
                out.push(
                    Editor {
                        editor_id: e.editor_id,
                        editor_name: e.editor_name.clone(),
                        editor_call_name: e.editor_call_name.clone(),
                        password: new_password.clone(),
                    },
                );
            } else {
                out.push(e.duplicate());
            }
            i += 1;
        }
        self.editors = out;
        assert(self@.editors =~= spec_update_password(old(self)@, id@, new_password@).editors);
        assert(self@ =~= spec_update_password(old(self)@, id@, new_password@));
        assert forall|i2: int| 0 <= i2 < self@.articles.len() implies has_editor_id(
            self@.editors,
            (#[trigger] self@.articles[i2]).author_id,
        ) by {
            assert(has_editor_id(old(self)@.editors, old(self)@.articles[i2].author_id));
            let j = choose|j: int|
                0 <= j < old(self)@.editors.len() && old(self)@.editors[j].editor_id == old(
                    self,
                )@.articles[i2].author_id;
            assert(self@.editors[j].editor_id == old(self)@.editors[j].editor_id);
        }
        true
    }

    /// Whether some editor row carries the id.
    fn contains_editor_id(&self, id: i64) -> (r: bool)
        ensures
            r == has_editor_id(self@.editors, id as int),
    {
        let n = self.editors.len();
        let mut i: usize = 0;
        while i < n
            invariant
                n == self.editors.len(),
                i <= n,
                forall|j: int| 0 <= j < i ==> self.editors@[j]@.editor_id != id as int,
            decreases n - i,
        {
            if self.editors[i].editor_id == id {
                assert(self@.editors[i as int].editor_id == id as int);
                return true;
            }
            i += 1;
        }
        assert forall|k: int| 0 <= k < self@.editors.len() implies #[trigger] self@.editors[k].editor_id
            != id as int by {
            assert(self@.editors[k] == self.editors@[k]@);
        }
        false
    }

    /// Inserts an article row for the resolved author. Fails on an author
    /// id that names no editor (the foreign-key constraint) or when the id
    /// space is used up; a failure leaves the store unchanged.
    pub fn add_article(&mut self, req_article: CreateArticleDbReq) -> (r: Result<
        bool,
        PersistenceError,
    >)
        requires
            old(self).wf(),
        ensures
            final(self).wf(),
            match r {
                Ok(b) => b && has_editor_id(old(self)@.editors, req_article.author_id as int)
                    && old(self)@.next_article_id < i64::MAX && final(self)@ == spec_add_article(
                    old(self)@,
                    req_article.author_id as int,
                    req_article.title@,
                    req_article.content@,
                ),
                Err(pe) => final(self)@ == old(self)@ && (pe is ConstraintViolation
                    <==> !has_editor_id(old(self)@.editors, req_article.author_id as int)) && (
                pe is KeySpaceExhausted <==> has_editor_id(
                    old(self)@.editors,
                    req_article.author_id as int,
                ) && old(self)@.next_article_id == i64::MAX),
            },
    {
        if !self.contains_editor_id(req_article.author_id) {
            return Err(PersistenceError::ConstraintViolation);
        }
        if self.next_article_id == i64::MAX {
            return Err(PersistenceError::KeySpaceExhausted);
        }
        let row = Article {
            id: self.next_article_id,
            author_id: req_article.author_id,
            title: req_article.title,
            content: Some(req_article.content),
        };
        self.articles.push(row);
        self.next_article_id = self.next_article_id + 1;
        assert(self@.articles =~= spec_add_article(
            old(self)@,
            req_article.author_id as int,
            self@.articles.last().title,
            req_article.content@,
        ).articles);
        assert(self@ =~= spec_add_article(
            old(self)@,
            req_article.author_id as int,
            self@.articles.last().title,
            req_article.content@,
        ));
        assert forall|i2: int| 0 <= i2 < self@.articles.len() implies has_editor_id(
            self@.editors,
            (#[trigger] self@.articles[i2]).author_id,
        ) by {
            assert(self@.editors == old(self)@.editors);
            if i2 < self@.articles.len() - 1 {
                assert(self@.articles[i2] == old(self)@.articles[i2]);
            }
        }
        Ok(true)
    }

    /// All articles whose author matches, in store order.
    pub fn get_titles(&self, req_editor_id: i64) -> (r: Vec<Article>)
        requires
            self.wf(),
        ensures
            article_models(r@) == author_articles(self@.articles, req_editor_id as int),
    {
        let n = self.articles.len();
        let mut out: Vec<Article> = Vec::new();
        let mut i: usize = 0;
        proof {
            assert(article_models(self.articles@.take(0)) =~= Seq::<ArticleModel>::empty());
            assert(self@.articles.take(0) =~= Seq::<ArticleModel>::empty());
            reveal(Seq::filter);
        }
        while i < n
            invariant
                n == self.articles.len(),
                i <= n,
                article_models(out@) == author_articles(
                    self@.articles.take(i as int),
                    req_editor_id as int,
                ),
            decreases n - i,
        {
            proof {
                assert(self@.articles.take(i + 1) =~= self@.articles.take(i as int).push(
                    self@.articles[i as int],
                ));
                lemma_filter_push(
                    self@.articles.take(i as int),
                    |a: ArticleModel| a.author_id == req_editor_id as int,
                    self@.articles[i as int],
                );
                assert(self@.articles[i as int] == self.articles@[i as int]@);
            }
            let a = &self.articles[i];
            if a.author_id == req_editor_id {
                out.push(a.duplicate());
                assert(article_models(out@) =~= article_models(out@.drop_last()).push(
                    self@.articles[i as int],
                ));
            }
            i += 1;
        }
        assert(self@.articles.take(n as int) =~= self@.articles);
        out
    }

    /// Lookup by primary key; absent when no row matches.
    pub fn find_article(&self, article_id: i64) -> (r: Option<Article>)
        requires
            self.wf(),
        ensures
            match r {
                Some(a) => a@.id == article_id as int && self@.articles.contains(a@),
                None => !has_article(self@.articles, article_id as int),
            },
    {
        let n = self.articles.len();
        let mut i: usize = 0;
        while i < n
            invariant
                n == self.articles.len(),
                i <= n,
                forall|j: int| 0 <= j < i ==> self.articles@[j]@.id != article_id as int,
            decreases n - i,
        {
            if self.articles[i].id == article_id {
                let found = self.articles[i].duplicate();
                assert(self@.articles[i as int] == found@);
                return Some(found);
            }
            i += 1;
        }
        assert forall|k: int| 0 <= k < self@.articles.len() implies #[trigger] self@.articles[k].id
            != article_id as int by {
            assert(self@.articles[k] == self.articles@[k]@);
        }
        None
    }

    /// Replaces title and content of the row matching the id; a missing id
    /// is a no-op reported as success.
    pub fn update_article(
        &mut self,
        article_id: i64,
        article_title: String,
        article_content: String,
    ) -> (r: bool)
        requires
            old(self).wf(),
        ensures
            final(self).wf(),
            r,
            final(self)@ == spec_update_article(
                old(self)@,
                article_id as int,
                article_title@,
                article_content@,
            ),
    {
        let n = self.articles.len();
        let mut out: Vec<Article> = Vec::new();
        let mut i: usize = 0;
        while i < n
            invariant
                n == self.articles.len(),
                i <= n,
                out@.len() == i,
                forall|j: int|
                    0 <= j < i ==> out@[j]@ == (if self.articles@[j]@.id == article_id as int {
                        ArticleModel {
                            title: article_title@,
                            content: Some(article_content@),
                            ..self.articles@[j]@
                        }
                    } else {
                        self.articles@[j]@
                    }),
            decreases n - i,
        {
            let a = &self.articles[i];
            if a.id == article_id {
                out.push(
                    Article {
                        id: a.id,
                        author_id: a.author_id,
                        title: article_title.clone(),
                        content: Some(article_content.clone()),
                    },
                );
            } else {
                out.push(a.duplicate());
            }
            i += 1;
        }
        self.articles = out;
        assert(self@.articles =~= spec_update_article(
            old(self)@,
            article_id as int,
            article_title@,
            article_content@,
        ).articles);
        assert(self@ =~= spec_update_article(
            old(self)@,
            article_id as int,
            article_title@,
            article_content@,
        ));
        assert forall|i2: int| 0 <= i2 < self@.articles.len() implies has_editor_id(
            self@.editors,
            (#[trigger] self@.articles[i2]).author_id,
        ) by {
            assert(self@.editors == old(self)@.editors);
            assert(self@.articles[i2].author_id == old(self)@.articles[i2].author_id);
        }
        true
    }

    /// Deletes the row matching the id; a missing id is a no-op reported as
    /// success.
    pub fn delete_article(&mut self, article_id: i64) -> (r: bool)
        requires
            old(self).wf(),
        ensures
            final(self).wf(),
            r,
            final(self)@ == spec_delete_article(old(self)@, article_id as int),
    {
        let n = self.articles.len();
        let mut out: Vec<Article> = Vec::new();
        let mut i: usize = 0;
        proof {
            assert(self@.articles.take(0) =~= Seq::<ArticleModel>::empty());
            reveal(Seq::filter);
        }
        while i < n
            invariant
                n == self.articles.len(),
                i <= n,
                article_models(out@) == self@.articles.take(i as int).filter(
                    |a: ArticleModel| a.id != article_id as int,
                ),
            decreases n - i,
        {
            proof {
                assert(self@.articles.take(i + 1) =~= self@.articles.take(i as int).push(
                    self@.articles[i as int],
                ));
                lemma_filter_push(
                    self@.articles.take(i as int),
                    |a: ArticleModel| a.id != article_id as int,
                    self@.articles[i as int],
                );
                assert(self@.articles[i as int] == self.articles@[i as int]@);
            }
            let a = &self.articles[i];
            if a.id != article_id {
                out.push(a.duplicate());
                assert(article_models(out@) =~= article_models(out@.drop_last()).push(
                    self@.articles[i as int],
                ));
            }
            i += 1;
        }
        self.articles = out;
        proof {
            assert(old(self)@.articles.take(n as int) =~= old(self)@.articles);
            assert(self@ =~= spec_delete_article(old(self)@, article_id as int));
            lemma_filter_articles(
                old(self)@.articles,
                |a: ArticleModel| a.id != article_id as int,
            );
            assert forall|i2: int|
                0 <= i2 < self@.articles.len() implies 1 <= (#[trigger] self@.articles[i2]).id
                < self@.next_article_id && has_editor_id(
                self@.editors,
                self@.articles[i2].author_id,
            ) by {
                let s = old(self)@.articles;
                let kept = s.filter(|a: ArticleModel| a.id != article_id as int);
                assert(s.contains(kept[i2]));
                let jj = choose|jj: int| 0 <= jj < s.len() && s[jj] == kept[i2];
                assert(has_editor_id(old(self)@.editors, s[jj].author_id));
                assert(self@.editors == old(self)@.editors);
            }
        }
        true
    }
}

} // verus!
