//! What a handler hands back: a status code, a body, and what to do with
//! the session cookie.

use vstd::prelude::*;
use crate::models::{Editor, Article, TitlesRes};

verus! {

/// What the handler asks the session layer to do with the cookie: leave it
/// as it is, (re-)set it to the given identity (sliding the expiry window),
/// or clear it.
pub enum SessionDirective {
    Untouched,
    Remember(String),
    Forget,
}

/// The payload of a handler's response.
pub enum ResponseBody {
    Empty,
    EditorJson(Editor),
    ArticleJson(Article),
    TitleList(Vec<TitlesRes>),
}

/// A handler's result: an HTTP status code, the body to serialize, and the
/// session directive.
pub struct Response {
    pub status: u16,
    pub body: ResponseBody,
    pub session: SessionDirective,
}

} // verus!
