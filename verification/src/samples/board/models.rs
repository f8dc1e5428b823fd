//! The data of the board.
//!
//! Identifiers are 128-bit numbers, and times are seconds since the start of
//! 1970.

use crate::text::starts_with;
use vstd::prelude::*;

verus! {

/// The role of a user of the board.
#[derive(Debug, Clone, Copy, PartialEq, Eq, Structural)]
pub enum Role {
    Admin,
    Writer,
    Reader,
}

/// The name of a role.
pub open spec fn role_name_of(role: Role) -> Seq<char> {
    match role {
        Role::Admin => "admin"@,
        Role::Writer => "writer"@,
        Role::Reader => "reader"@,
    }
}

impl Role {
    /// The name of this role.
    pub fn to_string(&self) -> (r: String)
        ensures
            r@ == role_name_of(*self),
    {
        match self {
            Role::Admin => String::from_str("admin"),
            Role::Writer => String::from_str("writer"),
            Role::Reader => String::from_str("reader"),
        }
    }
}

/// A user.
#[derive(Debug, Clone)]
pub struct User {
    pub id: u128,
    pub email: String,
    pub name: String,
    pub role: Role,
    pub created_at: i64,
}

/// A file attached to a post or a comment.
#[derive(Debug, Clone)]
pub struct FileAttachment {
    pub id: u128,
    pub key: String,
    pub filename: String,
    pub content_type: String,
    pub size: u64,
    pub uploader_id: u128,
    pub is_image: bool,
    pub created_at: i64,
}

impl FileAttachment {
    /// Whether a file of the content type `content_type` is an image: it is
    /// where the type begins with `image/`.
    pub fn check_is_image(content_type: &str) -> (r: bool)
        ensures
            r == "image/"@.is_prefix_of(content_type@),
    {
        starts_with(content_type, "image/")
    }
}

/// A post.
#[derive(Debug, Clone)]
pub struct Post {
    pub id: u128,
    pub title: String,
    pub content: String,
    pub author_id: u128,
    pub author_name: String,
    pub files: Vec<FileAttachment>,
    pub comment_count: u32,
    pub created_at: i64,
    pub updated_at: i64,
}

/// What is sent to make a post.
#[derive(Debug, Clone)]
pub struct CreatePostRequest {
    pub title: String,
    pub content: String,
    pub file_keys: Vec<String>,
}

/// What is sent to change a post.
#[derive(Debug, Clone)]
pub struct UpdatePostRequest {
    pub title: Option<String>,
    pub content: Option<String>,
    pub add_file_keys: Vec<String>,
    pub remove_file_keys: Vec<String>,
}

/// A comment.
#[derive(Debug, Clone)]
pub struct Comment {
    pub id: u128,
    pub post_id: u128,
    pub content: String,
    pub author_id: u128,
    pub author_name: String,
    pub files: Vec<FileAttachment>,
    pub created_at: i64,
    pub updated_at: i64,
}

/// What is sent to make a comment.
#[derive(Debug, Clone)]
pub struct CreateCommentRequest {
    pub content: String,
    pub file_keys: Vec<String>,
}

/// What is sent to change a comment.
#[derive(Debug, Clone)]
pub struct UpdateCommentRequest {
    pub content: String,
}

} // verus!
