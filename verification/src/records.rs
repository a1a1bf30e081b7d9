//! The records the store keeps: user profiles, posts, and comments.
//!
//! Accounts are identified by an opaque address, carried here as a `u64`
//! handed out by the host environment; the store never interprets it beyond
//! equality. Timestamps likewise come from the host's clock and are carried
//! unchanged.

use vstd::prelude::*;

verus! {

/// Mutable profile metadata of a user: display name, biography, and avatar
/// content reference.
#[derive(Clone, Debug, PartialEq, Eq)]
pub struct UserInfo {
    pub name: String,
    pub bio: String,
    pub avatar_uri: String,
}

/// A post: immutable once created. `id` is its global sequence number,
/// assigned at creation, starting at 1, and never reused.
#[derive(Clone, Debug, PartialEq, Eq)]
pub struct Post {
    pub id: u32,
    pub author: u64,
    pub create_time: u64,
    pub text: String,
    pub content_uri: String,
}

/// A comment on a post: immutable. `id` is a post-scoped sequence number
/// starting at 1 per post, not globally unique.
#[derive(Clone, Debug, PartialEq, Eq)]
pub struct Comment {
    pub id: u32,
    pub author: u64,
    pub create_time: u64,
    pub text: String,
}

impl UserInfo {
    /// An equal copy, field by field.
    pub fn duplicate(&self) -> (r: UserInfo)
        ensures
            r == *self,
    {
        UserInfo {
            name: self.name.clone(),
            bio: self.bio.clone(),
            avatar_uri: self.avatar_uri.clone(),
        }
    }
}

impl Post {
    /// An equal copy, field by field.
    pub fn duplicate(&self) -> (r: Post)
        ensures
            r == *self,
    {
        Post {
            id: self.id,
            author: self.author,
            create_time: self.create_time,
            text: self.text.clone(),
            content_uri: self.content_uri.clone(),
        }
    }
}

impl Comment {
    /// An equal copy, field by field.
    pub fn duplicate(&self) -> (r: Comment)
        ensures
            r == *self,
    {
        Comment {
            id: self.id,
            author: self.author,
            create_time: self.create_time,
            text: self.text.clone(),
        }
    }
}

} // verus!
