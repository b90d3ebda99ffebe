//! The two persisted entities, an editor and an article, together with the
//! mathematical models that the contracts speak of.

use vstd::prelude::*;

verus! {

/// A registered author account. `editor_name` is the unique login
/// identifier; `password` holds a one-way digest, never a plaintext.
pub struct Editor {
    pub editor_id: i64,
    pub editor_name: String,
    pub editor_call_name: String,
    pub password: String,
}

/// A titled content record owned by exactly one editor.
pub struct Article {
    pub id: i64,
    pub author_id: i64,
    pub title: String,
    pub content: Option<String>,
}

/// One row of the title listing: the article's id and its title.
pub struct TitlesRes {
    pub article_id: i64,
    pub title: String,
}

/// The mathematical model of an editor row.
#[verifier::ext_equal]
pub ghost struct EditorModel {
    pub editor_id: int,
    pub editor_name: Seq<char>,
    pub editor_call_name: Seq<char>,
    pub password: Seq<char>,
}

/// The mathematical model of an article row.
#[verifier::ext_equal]
pub ghost struct ArticleModel {
    pub id: int,
    pub author_id: int,
    pub title: Seq<char>,
    pub content: Option<Seq<char>>,
}

/// The mathematical model of one title-listing row.
#[verifier::ext_equal]
pub ghost struct TitleModel {
    pub article_id: int,
    pub title: Seq<char>,
}

impl View for Editor {
    type V = EditorModel;

    open spec fn view(&self) -> EditorModel {
        EditorModel {
            editor_id: self.editor_id as int,
            editor_name: self.editor_name@,
            editor_call_name: self.editor_call_name@,
            password: self.password@,
        }
    }
}

impl View for Article {
    type V = ArticleModel;

    open spec fn view(&self) -> ArticleModel {
        ArticleModel {
            id: self.id as int,
            author_id: self.author_id as int,
            title: self.title@,
            content: match self.content {
                Some(c) => Some(c@),
                None => None,
            },
        }
    }
}

impl View for TitlesRes {
    type V = TitleModel;

    open spec fn view(&self) -> TitleModel {
        TitleModel { article_id: self.article_id as int, title: self.title@ }
    }
}

/// The models of a sequence of editor rows.
pub open spec fn editor_models(s: Seq<Editor>) -> Seq<EditorModel> {
    s.map_values(|e: Editor| e@)
}

/// The models of a sequence of article rows.
pub open spec fn article_models(s: Seq<Article>) -> Seq<ArticleModel> {
    s.map_values(|a: Article| a@)
}

/// The models of a sequence of title-listing rows.
pub open spec fn title_models(s: Seq<TitlesRes>) -> Seq<TitleModel> {
    s.map_values(|t: TitlesRes| t@)
}

impl Editor {
    /// An exact copy of the row.
    pub fn duplicate(&self) -> (r: Editor)
        ensures
            r == *self,
    {
        Editor {
            editor_id: self.editor_id,
            editor_name: self.editor_name.clone(),
            editor_call_name: self.editor_call_name.clone(),
            password: self.password.clone(),
        }
    }
}

impl Article {
    /// An exact copy of the row.
    pub fn duplicate(&self) -> (r: Article)
        ensures
            r == *self,
    {
        Article {
            id: self.id,
            author_id: self.author_id,
            title: self.title.clone(),
            content: match &self.content {
                Some(c) => Some(c.clone()),
                None => None,
            },
        }
    }
}

} // verus!
