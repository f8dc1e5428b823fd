//! The data that the sample application's HTTP interface takes and gives.

use vstd::prelude::*;

verus! {

/// A post as the interface shows it.
#[derive(Debug)]
pub struct Post {
    pub id: i64,
    pub title: String,
    pub content: String,
    pub author_id: i64,
}

/// What a caller sends to make or change a post.
#[derive(Debug)]
pub struct CreatePost {
    pub title: String,
    pub content: String,
}

/// A comment as the interface shows it.
#[derive(Debug)]
pub struct Comment {
    pub id: i64,
    pub post_id: i64,
    pub content: String,
    pub author_id: i64,
}

/// What a caller sends to make or change a comment.
#[derive(Debug)]
pub struct CreateComment {
    pub content: String,
}

/// What a caller sends to log in.
#[derive(Debug)]
pub struct LoginRequest {
    pub email: String,
    pub password: String,
}

/// Who is logged in.
#[derive(Debug)]
pub struct UserInfo {
    pub id: i64,
    pub email: String,
    pub role: String,
}

/// What a successful login gives.
#[derive(Debug)]
pub struct AuthResponse {
    pub token: String,
    pub user: UserInfo,
}

} // verus!
