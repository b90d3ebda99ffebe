//! The request bodies that the handlers accept, as plain values.

use vstd::prelude::*;

verus! {

/// Body of the registration request.
pub struct CreateEditorReq {
    pub editor_name: String,
    pub editor_call_name: String,
    pub password: String,
}

/// Body of the login request.
pub struct LoginReq {
    pub editor_name: String,
    pub password: String,
}

/// Body of the password-update request: the current password and its
/// replacement.
pub struct UpdatePasswordReq {
    pub password: String,
    pub password_again: String,
}

/// Body of the article-creation request.
pub struct CreateArticleReq {
    pub title: String,
    pub content: String,
}

/// An article-creation request with the author already resolved from the
/// session identity.
pub struct CreateArticleDbReq {
    pub author_id: i64,
    pub title: String,
    pub content: String,
}

/// Body of the article-update request.
pub struct UpdateArticleReq {
    pub id: i64,
    pub title: String,
    pub content: String,
}

/// Body of the article-deletion request.
pub struct DeleteArticleReq {
    pub id: i64,
}

} // verus!
