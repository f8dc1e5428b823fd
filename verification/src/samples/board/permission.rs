//! Who may do what on the board.

use crate::samples::board::models::Role;
use vstd::prelude::*;

verus! {

/// Whether a user with the role `role` may make a post: an admin and a writer
/// may, a reader may not.
pub fn can_create_post(role: &Role) -> (r: bool)
    ensures
        r == (*role == Role::Admin || *role == Role::Writer),
{
    match role {
        Role::Admin => true,
        Role::Writer => true,
        Role::Reader => false,
    }
}

/// Whether the user `user_id` with the role `role` may change or remove a post
/// of the author `post_author_id`: an admin may always, a writer may where the
/// post is their own, a reader never.
pub fn can_modify_post(role: &Role, user_id: u128, post_author_id: u128) -> (r: bool)
    ensures
        r == (*role == Role::Admin || (*role == Role::Writer && user_id == post_author_id)),
{
    match role {
        Role::Admin => true,
        Role::Writer => user_id == post_author_id,
        Role::Reader => false,
    }
}

/// Whether a user with the role `role` may make a comment: everyone may.
pub fn can_create_comment(_role: &Role) -> (r: bool)
    ensures
        r,
{
    true
}

/// Whether the user `user_id` with the role `role` may change or remove a
/// comment of the author `comment_author_id`: an admin may always, a reader
/// may where the comment is their own, a writer never.
pub fn can_modify_comment(role: &Role, user_id: u128, comment_author_id: u128) -> (r: bool)
    ensures
        r == (*role == Role::Admin || (*role == Role::Reader && user_id == comment_author_id)),
{
    match role {
        Role::Admin => true,
        Role::Writer => false,
        Role::Reader => user_id == comment_author_id,
    }
}

/// Whether the user `user_id` with the role `role` may remove a file that
/// `uploader_id` put there: an admin may always, anyone else where the file is
/// their own.
pub fn can_delete_file(role: &Role, user_id: u128, uploader_id: u128) -> (r: bool)
    ensures
        r == (*role == Role::Admin || user_id == uploader_id),
{
    match role {
        Role::Admin => true,
        _ => user_id == uploader_id,
    }
}

} // verus!
