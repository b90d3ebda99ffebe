//! General properties of the gateway and its listings, stated and proved
//! once over the store's model. The handler contracts in `actions` carry
//! the per-request guarantees; these lemmas relate operations to each
//! other: register then fetch, create then list, delete then fetch.

use vstd::prelude::*;
use crate::models::{ArticleModel, TitleModel};
use crate::store::{
    StoreModel, store_inv, has_editor, has_article, author_articles, spec_add_editor,
    spec_add_article, spec_delete_article, lemma_filter_push, lemma_filter_articles,
};
use crate::actions::spec_titles;

verus! {

broadcast use vstd::seq_lib::group_filter_ensures;

/// Registering an editor under a fresh name and then looking that name up
/// finds exactly the registered row: it exists, and every row under that
/// name carries the given display name and the stored digest.
pub proof fn lemma_register_then_find(
    m: StoreModel,
    name: Seq<char>,
    call_name: Seq<char>,
    digest: Seq<char>,
)
    requires
        store_inv(m),
        !has_editor(m.editors, name),
        m.next_editor_id < i64::MAX,
    ensures
        ({
            let eds = spec_add_editor(m, name, call_name, digest).editors;
            has_editor(eds, name) && forall|i: int|
                0 <= i < eds.len() && (#[trigger] eds[i]).editor_name == name
                    ==> eds[i].editor_call_name == call_name && eds[i].password == digest
        }),
{
    let eds = spec_add_editor(m, name, call_name, digest).editors;
    assert(eds[eds.len() - 1].editor_name == name);
}

/// A digest of the shape the hasher produces, 60 characters beginning with
/// '$', is never the plaintext it was derived from, for any plaintext not
/// itself of that shape.
pub proof fn lemma_digest_not_plaintext(plaintext: Seq<char>, digest: Seq<char>)
    requires
        digest.len() == 60,
        digest[0] == '$',
        plaintext.len() != 60 || plaintext[0] != '$',
    ensures
        digest != plaintext,
{
}

/// Creating an article appends exactly one row to its author's title
/// listing, under the fresh id and the given title; the fresh id appears
/// nowhere in the old listing, and every other author's listing is
/// unchanged.
pub proof fn lemma_create_then_titles(
    m: StoreModel,
    author: int,
    title: Seq<char>,
    content: Seq<char>,
)
    requires
        store_inv(m),
        m.next_article_id < i64::MAX,
    ensures
        spec_titles(spec_add_article(m, author, title, content).articles, author) == spec_titles(
            m.articles,
            author,
        ).push(TitleModel { article_id: m.next_article_id, title: title }),
        forall|i: int|
            0 <= i < spec_titles(m.articles, author).len() ==> (#[trigger] spec_titles(
                m.articles,
                author,
            )[i]).article_id != m.next_article_id,
        forall|other: int|
            other != author ==> #[trigger] spec_titles(
                spec_add_article(m, author, title, content).articles,
                other,
            ) == spec_titles(m.articles, other),
{
    let fresh = ArticleModel {
        id: m.next_article_id,
        author_id: author,
        title: title,
        content: Some(content),
    };
    let arts2 = spec_add_article(m, author, title, content).articles;
    assert(arts2 == m.articles.push(fresh));
    lemma_filter_push(m.articles, |a: ArticleModel| a.author_id == author, fresh);
    assert(author_articles(arts2, author) == author_articles(m.articles, author).push(fresh));
    assert(spec_titles(arts2, author) =~= spec_titles(m.articles, author).push(
        TitleModel { article_id: m.next_article_id, title: title },
    ));
    lemma_filter_articles(m.articles, |a: ArticleModel| a.author_id == author);
    assert forall|i: int| 0 <= i < spec_titles(m.articles, author).len() implies (
    #[trigger] spec_titles(m.articles, author)[i]).article_id != m.next_article_id by {
        let kept = author_articles(m.articles, author);
        assert(m.articles.contains(kept[i]));
        let j = choose|j: int| 0 <= j < m.articles.len() && m.articles[j] == kept[i];
        assert(m.articles[j].id < m.next_article_id);
    }
    assert forall|other: int| other != author implies #[trigger] spec_titles(arts2, other)
        == spec_titles(m.articles, other) by {
        lemma_filter_push(m.articles, |a: ArticleModel| a.author_id == other, fresh);
        assert(author_articles(arts2, other) == author_articles(m.articles, other));
    }
}

/// Whether `t` is the id and title of some article of `arts` whose author
/// is `author`.
pub open spec fn title_from_author(arts: Seq<ArticleModel>, author: int, t: TitleModel) -> bool {
    exists|j: int|
        0 <= j < arts.len() && (#[trigger] arts[j]).author_id == author && arts[j].id
            == t.article_id && arts[j].title == t.title
}

/// A title listing only ever shows the author's own articles: each listed
/// row is the id and title of some article whose author is `author`.
pub proof fn lemma_titles_only_author(arts: Seq<ArticleModel>, author: int)
    requires
        forall|i: int, j: int| 0 <= i < j < arts.len() ==> arts[i].id != arts[j].id,
    ensures
        forall|i: int|
            0 <= i < spec_titles(arts, author).len() ==> title_from_author(
                arts,
                author,
                #[trigger] spec_titles(arts, author)[i],
            ),
{
    lemma_filter_articles(arts, |a: ArticleModel| a.author_id == author);
    assert forall|i: int| 0 <= i < spec_titles(arts, author).len() implies title_from_author(
        arts,
        author,
        #[trigger] spec_titles(arts, author)[i],
    ) by {
        let kept = author_articles(arts, author);
        assert(arts.contains(kept[i]));
        let j = choose|j: int| 0 <= j < arts.len() && arts[j] == kept[i];
        assert(arts[j].author_id == author && arts[j].id == spec_titles(arts, author)[i].article_id
            && arts[j].title == spec_titles(arts, author)[i].title);
    }
}

/// After deleting an article by id, a fetch of that id finds nothing.
pub proof fn lemma_delete_then_find(m: StoreModel, id: int)
    ensures
        !has_article(spec_delete_article(m, id).articles, id),
{
    let kept = spec_delete_article(m, id).articles;
    assert forall|i: int| 0 <= i < kept.len() implies (#[trigger] kept[i]).id != id by {
        assert(kept == m.articles.filter(|a: ArticleModel| a.id != id));
    }
}

} // verus!
