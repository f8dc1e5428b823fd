//! The board: posts, comments, and who may change them.

pub mod models;
pub mod permission;

pub use models::{
    Comment, CreateCommentRequest, CreatePostRequest, FileAttachment, Post, Role,
    UpdateCommentRequest, UpdatePostRequest, User,
};
pub use permission::{
    can_create_comment, can_create_post, can_delete_file, can_modify_comment, can_modify_post,
};
