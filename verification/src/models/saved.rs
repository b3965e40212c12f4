//! # Saved items
//! What a user has saved, voted up or voted down: posts and comments in one
//! listing, told apart by their shape alone.

use vstd::prelude::*;
use crate::json::Json;
use crate::models::comment::{comment_fits, encode_comment, CommentData, REPLY_DEPTH};
use crate::models::response::{lemma_member_names, BasicListing, Payload};
use crate::models::submission::SubmissionData;

verus! {

/// A saved item can be a comment or post
#[derive(Debug)]
pub enum SavedData {
    /// Post
    Submission(SubmissionData),
    /// Comment
    Comment(CommentData),
}

/// Saved listing
pub type Saved = BasicListing<SavedData>;

impl SavedData {
    /// The id of the post or comment.
    pub open spec fn spec_id(self) -> Seq<char> {
        match self {
            SavedData::Submission(submission) => submission.id@,
            SavedData::Comment(comment) => comment.id@,
        }
    }

    /// The item can be written: a comment's replies go no deeper than the
    /// levels that are read.
    pub open spec fn writable(self) -> bool {
        match self {
            SavedData::Submission(_) => true,
            SavedData::Comment(comment) => comment_fits(comment, REPLY_DEPTH as nat),
        }
    }

    /// Writes the item as a JSON object that stands for it: a post as
    /// `SubmissionData::to_json` writes it, a comment as `encode_comment`
    /// does.
    pub fn to_json(&self) -> (r: Option<Json>)
        ensures
            r is Some <==> self.writable(),
            r matches Some(json) ==> SavedData::represents(json, *self),
    {
        match self {
            SavedData::Submission(submission) => Some(submission.to_json()),
            SavedData::Comment(comment) => match encode_comment(comment, REPLY_DEPTH) {
                Some(json) => {
                    proof {
                        lemma_member_names();
                    }
                    Some(json)
                },
                None => None,
            },
        }
    }

    /// The id of the post or comment.
    pub fn id(&self) -> (id: &str)
        ensures
            id@ == self.spec_id(),
    {
        match self {
            SavedData::Submission(submission) => submission.id.as_str(),
            SavedData::Comment(comment) => comment.id.as_str(),
        }
    }
}

/// The shape of a post is tried first, that of a comment second: a value of
/// both shapes is read as a post.
impl Payload for SavedData {
    open spec fn accepts(json: Json) -> bool {
        SubmissionData::accepts(json) || CommentData::accepts(json)
    }

    open spec fn represents(json: Json, value: SavedData) -> bool {
        match value {
            SavedData::Submission(submission) => SubmissionData::accepts(json)
                && SubmissionData::represents(json, submission),
            SavedData::Comment(comment) => !SubmissionData::accepts(json)
                && CommentData::represents(json, comment),
        }
    }

    fn decode(json: &Json) -> (r: Option<SavedData>) {
        match SubmissionData::decode(json) {
            Some(submission) => Some(SavedData::Submission(submission)),
            None => match CommentData::decode(json) {
                Some(comment) => Some(SavedData::Comment(comment)),
                None => None,
            },
        }
    }
}

/// Reading back what was written keeps the kind and the id: where a JSON
/// value stands for the saved item `written`, it has the shape of a saved
/// item, so it can be read, and whatever item `read` it is read as is a post
/// exactly if `written` is one, and has the id of `written`.
pub proof fn lemma_saved_round_trip(json: Json, written: SavedData, read: SavedData)
    requires
        SavedData::represents(json, written),
        SavedData::represents(json, read),
    ensures
        SavedData::accepts(json),
        written is Submission <==> read is Submission,
        written is Comment <==> read is Comment,
        read.spec_id() == written.spec_id(),
{
}

} // verus!
