//! # Replies
//! What stands in the `replies` member of a comment.

use vstd::prelude::*;
use crate::models::comment::CommentData;
use crate::models::response::BasicListing;

verus! {

/// A page of comments that answer a comment.
pub type Replies = BasicListing<CommentData>;

/// Replies can be more comments or an empty string
#[derive(Debug)]
pub enum MaybeReplies {
    /// Reply
    Reply(Replies),
    /// String
    Str(String),
}

} // verus!
