//! # Comments
//! A comment and the tree of replies below it.
//!
//! The `replies` member of a comment is absent or null, or a listing of
//! comments, or a string (an empty one, as the API sends it) that says that
//! the response holds no replies. The listing is tried first, the string
//! second. Each comment of the listing has its own `replies` of the same
//! kind; the tree is read down to a given depth, and a tree that goes deeper
//! is not accepted.

use vstd::prelude::*;
use crate::json::{
    flag_json, i32_json, i32_value, lookup_from, no_members, optional_flag_json,
    optional_flag_value, optional_i32_json, optional_i32_value, optional_text_json,
    optional_text_value, put, text_json, Json,
};
use crate::models::reply::{MaybeReplies, Replies};
use crate::util::option::text_of;
use crate::models::response::{
    envelope_ok, lemma_member_names, listing_around, listing_head_is, listing_head_ok,
    open_envelope, BasicListing, BasicThing, Payload,
};

verus! {

/// The number of levels of replies that are read below a comment.
pub const REPLY_DEPTH: usize = 32;

/// A comment.
#[derive(Debug)]
pub struct CommentData {
    /// Total awards received
    pub total_awards_received: i32,
    /// Link id
    pub link_id: String,
    /// Author flair template id
    pub author_flair_template_id: String,
    /// Likes, can be null
    pub likes: Option<bool>,
    /// Saved
    pub saved: bool,
    /// ID, every basic thing has an id
    pub id: String,
    /// Gilded
    pub gilded: i32,
    /// Archived
    pub archived: bool,
    /// No follow
    pub no_follow: bool,
    /// Author
    pub author: String,
    /// Can mod post
    pub can_mod_post: bool,
    /// Send replies
    pub send_replies: bool,
    /// Parent ID, full name of parent
    pub parent_id: String,
    /// Score
    pub score: i32,
    /// Author fullname
    pub author_fullname: String,
    /// Over 18, only for latest comments
    pub over_18: Option<bool>,
    /// Approved by
    pub approved_by: String,
    /// Subreddit id
    pub subreddit_id: Option<String>,
    /// Body
    pub body: String,
    /// Link title
    pub link_title: Option<String>,
    /// Name: the kind's prefix, an underscore and the id
    pub name: String,
    /// Author patreon flair
    pub author_patreon_flair: bool,
    /// Downs
    pub downs: i32,
    /// Is submitter
    pub is_submitter: bool,
    /// Body html
    pub body_html: String,
    /// Distinguished
    pub distinguished: Option<String>,
    /// Edited
    pub edited: bool,
    /// Stickied
    pub stickied: bool,
    /// Author premium
    pub author_premium: bool,
    /// Can gild
    pub can_gild: bool,
    /// Subreddit
    pub subreddit: String,
    /// Author flair text color
    pub author_flair_text_color: String,
    /// Score hidden
    pub score_hidden: bool,
    /// Permalink
    pub permalink: String,
    /// Num reports
    pub num_reports: Option<i32>,
    /// Num comments
    pub num_comments: Option<i32>,
    /// Depth of the comment, only for the comments of an article
    pub depth: Option<i32>,
    /// Link permalink
    pub link_permalink: Option<String>,
    /// Link author
    pub link_author: Option<String>,
    /// Subreddit name prefixed
    pub subreddit_name_prefixed: String,
    /// Author flair text
    pub author_flair_text: String,
    /// Link url
    pub link_url: Option<String>,
    /// Collapsed
    pub collapsed: bool,
    /// Controversiality
    pub controversiality: i32,
    /// Locked
    pub locked: bool,
    /// Quarantine
    pub quarantine: Option<bool>,
    /// Subreddit type
    pub subreddit_type: String,
    /// Ups
    pub ups: i32,
    /// Replies
    pub replies: Option<MaybeReplies>,
}

/// A page of comments.
pub type Comments = BasicListing<CommentData>;

/// The strings that a comment must have are there.
pub open spec fn comment_texts_ok(json: Json) -> bool {
    &&& json.text_at("link_id"@) is Some
    &&& json.text_at("author_flair_template_id"@) is Some
    &&& json.text_at("id"@) is Some
    &&& json.text_at("author"@) is Some
    &&& json.text_at("parent_id"@) is Some
    &&& json.text_at("author_fullname"@) is Some
    &&& json.text_at("approved_by"@) is Some
    &&& json.text_at("body"@) is Some
    &&& json.text_at("name"@) is Some
    &&& json.text_at("body_html"@) is Some
    &&& json.text_at("subreddit"@) is Some
    &&& json.text_at("author_flair_text_color"@) is Some
    &&& json.text_at("permalink"@) is Some
    &&& json.text_at("subreddit_name_prefixed"@) is Some
    &&& json.text_at("author_flair_text"@) is Some
    &&& json.text_at("subreddit_type"@) is Some
}

/// The strings of `comment` are those of the JSON value.
pub open spec fn comment_texts_are(json: Json, comment: CommentData) -> bool {
    &&& json.text_at("link_id"@) == Some(comment.link_id@)
    &&& json.text_at("author_flair_template_id"@) == Some(comment.author_flair_template_id@)
    &&& json.text_at("id"@) == Some(comment.id@)
    &&& json.text_at("author"@) == Some(comment.author@)
    &&& json.text_at("parent_id"@) == Some(comment.parent_id@)
    &&& json.text_at("author_fullname"@) == Some(comment.author_fullname@)
    &&& json.text_at("approved_by"@) == Some(comment.approved_by@)
    &&& json.text_at("body"@) == Some(comment.body@)
    &&& json.text_at("name"@) == Some(comment.name@)
    &&& json.text_at("body_html"@) == Some(comment.body_html@)
    &&& json.text_at("subreddit"@) == Some(comment.subreddit@)
    &&& json.text_at("author_flair_text_color"@) == Some(comment.author_flair_text_color@)
    &&& json.text_at("permalink"@) == Some(comment.permalink@)
    &&& json.text_at("subreddit_name_prefixed"@) == Some(comment.subreddit_name_prefixed@)
    &&& json.text_at("author_flair_text"@) == Some(comment.author_flair_text@)
    &&& json.text_at("subreddit_type"@) == Some(comment.subreddit_type@)
}

/// The booleans that a comment must have are there.
pub open spec fn comment_flags_ok(json: Json) -> bool {
    &&& json.flag_at("saved"@) is Some
    &&& json.flag_at("archived"@) is Some
    &&& json.flag_at("no_follow"@) is Some
    &&& json.flag_at("can_mod_post"@) is Some
    &&& json.flag_at("send_replies"@) is Some
    &&& json.flag_at("author_patreon_flair"@) is Some
    &&& json.flag_at("is_submitter"@) is Some
    &&& json.flag_at("edited"@) is Some
    &&& json.flag_at("stickied"@) is Some
    &&& json.flag_at("author_premium"@) is Some
    &&& json.flag_at("can_gild"@) is Some
    &&& json.flag_at("score_hidden"@) is Some
    &&& json.flag_at("collapsed"@) is Some
    &&& json.flag_at("locked"@) is Some
}

/// The booleans of `comment` are those of the JSON value.
pub open spec fn comment_flags_are(json: Json, comment: CommentData) -> bool {
    &&& json.flag_at("saved"@) == Some(comment.saved)
    &&& json.flag_at("archived"@) == Some(comment.archived)
    &&& json.flag_at("no_follow"@) == Some(comment.no_follow)
    &&& json.flag_at("can_mod_post"@) == Some(comment.can_mod_post)
    &&& json.flag_at("send_replies"@) == Some(comment.send_replies)
    &&& json.flag_at("author_patreon_flair"@) == Some(comment.author_patreon_flair)
    &&& json.flag_at("is_submitter"@) == Some(comment.is_submitter)
    &&& json.flag_at("edited"@) == Some(comment.edited)
    &&& json.flag_at("stickied"@) == Some(comment.stickied)
    &&& json.flag_at("author_premium"@) == Some(comment.author_premium)
    &&& json.flag_at("can_gild"@) == Some(comment.can_gild)
    &&& json.flag_at("score_hidden"@) == Some(comment.score_hidden)
    &&& json.flag_at("collapsed"@) == Some(comment.collapsed)
    &&& json.flag_at("locked"@) == Some(comment.locked)
}

/// The numbers that a comment must have are there, as 32-bit integers.
pub open spec fn comment_numbers_ok(json: Json) -> bool {
    &&& json.i32_at("total_awards_received"@) is Some
    &&& json.i32_at("gilded"@) is Some
    &&& json.i32_at("score"@) is Some
    &&& json.i32_at("downs"@) is Some
    &&& json.i32_at("controversiality"@) is Some
    &&& json.i32_at("ups"@) is Some
}

/// The numbers of `comment` are those of the JSON value.
pub open spec fn comment_numbers_are(json: Json, comment: CommentData) -> bool {
    &&& json.i32_at("total_awards_received"@) == Some(comment.total_awards_received)
    &&& json.i32_at("gilded"@) == Some(comment.gilded)
    &&& json.i32_at("score"@) == Some(comment.score)
    &&& json.i32_at("downs"@) == Some(comment.downs)
    &&& json.i32_at("controversiality"@) == Some(comment.controversiality)
    &&& json.i32_at("ups"@) == Some(comment.ups)
}

/// Each member that a comment may leave out is absent, null or of its type.
pub open spec fn comment_options_ok(json: Json) -> bool {
    &&& json.optional_flag_ok("likes"@)
    &&& json.optional_flag_ok("over_18"@)
    &&& json.optional_flag_ok("quarantine"@)
    &&& json.optional_text_ok("subreddit_id"@)
    &&& json.optional_text_ok("link_title"@)
    &&& json.optional_text_ok("distinguished"@)
    &&& json.optional_text_ok("link_permalink"@)
    &&& json.optional_text_ok("link_author"@)
    &&& json.optional_text_ok("link_url"@)
    &&& json.optional_i32_ok("num_reports"@)
    &&& json.optional_i32_ok("num_comments"@)
    &&& json.optional_i32_ok("depth"@)
}

/// The members of `comment` that may be left out are those of the JSON
/// value: none where the member is absent or null.
pub open spec fn comment_options_are(json: Json, comment: CommentData) -> bool {
    &&& json.flag_at("likes"@) == comment.likes
    &&& json.flag_at("over_18"@) == comment.over_18
    &&& json.flag_at("quarantine"@) == comment.quarantine
    &&& json.text_at("subreddit_id"@) == text_of(comment.subreddit_id)
    &&& json.text_at("link_title"@) == text_of(comment.link_title)
    &&& json.text_at("distinguished"@) == text_of(comment.distinguished)
    &&& json.text_at("link_permalink"@) == text_of(comment.link_permalink)
    &&& json.text_at("link_author"@) == text_of(comment.link_author)
    &&& json.text_at("link_url"@) == text_of(comment.link_url)
    &&& json.i32_at("num_reports"@) == comment.num_reports
    &&& json.i32_at("num_comments"@) == comment.num_comments
    &&& json.i32_at("depth"@) == comment.depth
}

/// The members of a comment, but for its replies, have their shapes.
pub open spec fn comment_fields_ok(json: Json) -> bool {
    &&& comment_texts_ok(json)
    &&& comment_flags_ok(json)
    &&& comment_numbers_ok(json)
    &&& comment_options_ok(json)
}

/// The fields of `comment`, but for its replies, are those of the JSON value.
pub open spec fn comment_fields_are(json: Json, comment: CommentData) -> bool {
    &&& comment_texts_are(json, comment)
    &&& comment_flags_are(json, comment)
    &&& comment_numbers_are(json, comment)
    &&& comment_options_ok(json)
    &&& comment_options_are(json, comment)
}

/// The JSON value has the shape of a comment whose replies go no deeper
/// than `depth` levels.
pub open spec fn comment_ok(json: Json, depth: nat) -> bool
    decreases depth, 2nat,
{
    comment_fields_ok(json) && replies_ok(json, depth)
}

/// The `replies` member of a comment is absent or null, or a listing of
/// comments that fits under `depth`, or a string.
pub open spec fn replies_ok(json: Json, depth: nat) -> bool
    decreases depth, 1nat,
{
    ||| json.missing("replies"@)
    ||| nested(json, depth)
    ||| json.text_at("replies"@) is Some
}

/// The `replies` member of a comment is there, is not null, and is a listing
/// of comments that fits under `depth`.
pub open spec fn nested(json: Json, depth: nat) -> bool
    decreases depth, 0nat,
{
    &&& !json.missing("replies"@)
    &&& depth > 0
    &&& reply_listing_ok(json.spec_member("replies"@)->0, (depth - 1) as nat)
}

/// The JSON value has the shape of a listing of comments, each with replies
/// no deeper than `depth` levels.
pub open spec fn reply_listing_ok(json: Json, depth: nat) -> bool
    decreases depth, 4nat,
{
    &&& envelope_ok(json)
    &&& listing_head_ok(json.spec_member("data"@)->0)
    &&& json.spec_member("data"@)->0.items_at("children"@) matches Some(items) && forall|i: int|
        0 <= i < items.len() ==> reply_child_ok(#[trigger] items[i], depth)
}

/// The JSON value has the shape of the envelope of a comment with replies no
/// deeper than `depth` levels.
pub open spec fn reply_child_ok(json: Json, depth: nat) -> bool
    decreases depth, 3nat,
{
    envelope_ok(json) && comment_ok(json.spec_member("data"@)->0, depth)
}

/// The JSON value stands for `comment`, replies included.
pub open spec fn comment_is(json: Json, comment: CommentData, depth: nat) -> bool
    decreases depth, 2nat,
{
    comment_fields_are(json, comment) && replies_are(json, comment.replies, depth)
}

/// The `replies` member of the JSON value stands for `replies`: none where it
/// is absent or null, the listing where it is one, else the string.
pub open spec fn replies_are(json: Json, replies: Option<MaybeReplies>, depth: nat) -> bool
    decreases depth, 1nat,
{
    match replies {
        None => json.missing("replies"@),
        Some(MaybeReplies::Reply(listing)) => nested(json, depth) && reply_listing_is(
            json.spec_member("replies"@)->0,
            listing,
            (depth - 1) as nat,
        ),
        Some(MaybeReplies::Str(text)) => !json.missing("replies"@) && !nested(json, depth)
            && json.text_at("replies"@) == Some(text@),
    }
}

/// The JSON value stands for `listing`, comment by comment.
pub open spec fn reply_listing_is(json: Json, listing: Replies, depth: nat) -> bool
    decreases depth, 4nat,
{
    &&& json.text_at("kind"@) == Some(listing.kind@)
    &&& json.spec_member("data"@) is Some
    &&& listing_head_is(json.spec_member("data"@)->0, listing.data)
    &&& json.spec_member("data"@)->0.items_at("children"@) matches Some(items)
        && listing.data.children@.len() == items.len() && forall|i: int|
        0 <= i < items.len() ==> reply_child_is(
            #[trigger] items[i],
            listing.data.children@[i],
            depth,
        )
}

/// The JSON value stands for the envelope `child` of a comment.
pub open spec fn reply_child_is(json: Json, child: BasicThing<CommentData>, depth: nat) -> bool
    decreases depth, 3nat,
{
    &&& json.text_at("kind"@) == Some(child.kind@)
    &&& json.spec_member("data"@) is Some
    &&& comment_is(json.spec_member("data"@)->0, child.data, depth)
}

/// Reads a comment with its replies, down to `depth` levels of them.
pub fn decode_comment(json: &Json, depth: usize) -> (r: Option<CommentData>)
    ensures
        r is Some <==> comment_ok(*json, depth as nat),
        r matches Some(comment) ==> comment_is(*json, comment, depth as nat),
    decreases depth, 2nat,
{
    let link_id = match json.text_member("link_id") {
        Some(value) => value,
        None => {
            return None;
        },
    };
    let author_flair_template_id = match json.text_member("author_flair_template_id") {
        Some(value) => value,
        None => {
            return None;
        },
    };
    let id = match json.text_member("id") {
        Some(value) => value,
        None => {
            return None;
        },
    };
    let author = match json.text_member("author") {
        Some(value) => value,
        None => {
            return None;
        },
    };
    let parent_id = match json.text_member("parent_id") {
        Some(value) => value,
        None => {
            return None;
        },
    };
    let author_fullname = match json.text_member("author_fullname") {
        Some(value) => value,
        None => {
            return None;
        },
    };
    let approved_by = match json.text_member("approved_by") {
        Some(value) => value,
        None => {
            return None;
        },
    };
    let body = match json.text_member("body") {
        Some(value) => value,
        None => {
            return None;
        },
    };
    let name = match json.text_member("name") {
        Some(value) => value,
        None => {
            return None;
        },
    };
    let body_html = match json.text_member("body_html") {
        Some(value) => value,
        None => {
            return None;
        },
    };
    let subreddit = match json.text_member("subreddit") {
        Some(value) => value,
        None => {
            return None;
        },
    };
    let author_flair_text_color = match json.text_member("author_flair_text_color") {
        Some(value) => value,
        None => {
            return None;
        },
    };
    let permalink = match json.text_member("permalink") {
        Some(value) => value,
        None => {
            return None;
        },
    };
    let subreddit_name_prefixed = match json.text_member("subreddit_name_prefixed") {
        Some(value) => value,
        None => {
            return None;
        },
    };
    let author_flair_text = match json.text_member("author_flair_text") {
        Some(value) => value,
        None => {
            return None;
        },
    };
    let subreddit_type = match json.text_member("subreddit_type") {
        Some(value) => value,
        None => {
            return None;
        },
    };
    let saved = match json.flag_member("saved") {
        Some(value) => value,
        None => {
            return None;
        },
    };
    let archived = match json.flag_member("archived") {
        Some(value) => value,
        None => {
            return None;
        },
    };
    let no_follow = match json.flag_member("no_follow") {
        Some(value) => value,
        None => {
            return None;
        },
    };
    let can_mod_post = match json.flag_member("can_mod_post") {
        Some(value) => value,
        None => {
            return None;
        },
    };
    let send_replies = match json.flag_member("send_replies") {
        Some(value) => value,
        None => {
            return None;
        },
    };
    let author_patreon_flair = match json.flag_member("author_patreon_flair") {
        Some(value) => value,
        None => {
            return None;
        },
    };
    let is_submitter = match json.flag_member("is_submitter") {
        Some(value) => value,
        None => {
            return None;
        },
    };
    let edited = match json.flag_member("edited") {
        Some(value) => value,
        None => {
            return None;
        },
    };
    let stickied = match json.flag_member("stickied") {
        Some(value) => value,
        None => {
            return None;
        },
    };
    let author_premium = match json.flag_member("author_premium") {
        Some(value) => value,
        None => {
            return None;
        },
    };
    let can_gild = match json.flag_member("can_gild") {
        Some(value) => value,
        None => {
            return None;
        },
    };
    let score_hidden = match json.flag_member("score_hidden") {
        Some(value) => value,
        None => {
            return None;
        },
    };
    let collapsed = match json.flag_member("collapsed") {
        Some(value) => value,
        None => {
            return None;
        },
    };
    let locked = match json.flag_member("locked") {
        Some(value) => value,
        None => {
            return None;
        },
    };
    let total_awards_received = match json.i32_member("total_awards_received") {
        Some(value) => value,
        None => {
            return None;
        },
    };
    let gilded = match json.i32_member("gilded") {
        Some(value) => value,
        None => {
            return None;
        },
    };
    let score = match json.i32_member("score") {
        Some(value) => value,
        None => {
            return None;
        },
    };
    let downs = match json.i32_member("downs") {
        Some(value) => value,
        None => {
            return None;
        },
    };
    let controversiality = match json.i32_member("controversiality") {
        Some(value) => value,
        None => {
            return None;
        },
    };
    let ups = match json.i32_member("ups") {
        Some(value) => value,
        None => {
            return None;
        },
    };
    let likes = match json.optional_flag_member("likes") {
        Some(value) => value,
        None => {
            return None;
        },
    };
    let over_18 = match json.optional_flag_member("over_18") {
        Some(value) => value,
        None => {
            return None;
        },
    };
    let quarantine = match json.optional_flag_member("quarantine") {
        Some(value) => value,
        None => {
            return None;
        },
    };
    let subreddit_id = match json.optional_text_member("subreddit_id") {
        Some(value) => value,
        None => {
            return None;
        },
    };
    let link_title = match json.optional_text_member("link_title") {
        Some(value) => value,
        None => {
            return None;
        },
    };
    let distinguished = match json.optional_text_member("distinguished") {
        Some(value) => value,
        None => {
            return None;
        },
    };
    let link_permalink = match json.optional_text_member("link_permalink") {
        Some(value) => value,
        None => {
            return None;
        },
    };
    let link_author = match json.optional_text_member("link_author") {
        Some(value) => value,
        None => {
            return None;
        },
    };
    let link_url = match json.optional_text_member("link_url") {
        Some(value) => value,
        None => {
            return None;
        },
    };
    let num_reports = match json.optional_i32_member("num_reports") {
        Some(value) => value,
        None => {
            return None;
        },
    };
    let num_comments = match json.optional_i32_member("num_comments") {
        Some(value) => value,
        None => {
            return None;
        },
    };
    let nesting = match json.optional_i32_member("depth") {
        Some(value) => value,
        None => {
            return None;
        },
    };
    match decode_replies(json, depth) {
        Some(replies) => Some(
            CommentData {
                total_awards_received,
                link_id,
                author_flair_template_id,
                likes,
                saved,
                id,
                gilded,
                archived,
                no_follow,
                author,
                can_mod_post,
                send_replies,
                parent_id,
                score,
                author_fullname,
                over_18,
                approved_by,
                subreddit_id,
                body,
                link_title,
                name,
                author_patreon_flair,
                downs,
                is_submitter,
                body_html,
                distinguished,
                edited,
                stickied,
                author_premium,
                can_gild,
                subreddit,
                author_flair_text_color,
                score_hidden,
                permalink,
                num_reports,
                num_comments,
                depth: nesting,
                link_permalink,
                link_author,
                subreddit_name_prefixed,
                author_flair_text,
                link_url,
                collapsed,
                controversiality,
                locked,
                quarantine,
                subreddit_type,
                ups,
                replies,
            },
        ),
        None => None,
    }
}

/// Reads the `replies` member of a comment: the listing first, the string
/// second.
pub fn decode_replies(json: &Json, depth: usize) -> (r: Option<Option<MaybeReplies>>)
    ensures
        r is Some <==> replies_ok(*json, depth as nat),
        r matches Some(replies) ==> replies_are(*json, replies, depth as nat),
    decreases depth, 1nat,
{
    let value = match json.member("replies") {
        Some(value) => value,
        None => {
            return Some(None);
        },
    };
    if value.is_null() {
        return Some(None);
    }
    if depth > 0 {
        if let Some(listing) = decode_reply_listing(value, depth - 1) {
            return Some(Some(MaybeReplies::Reply(listing)));
        }
    }
    match value.as_text() {
        Some(text) => Some(Some(MaybeReplies::Str(text.to_owned()))),
        None => None,
    }
}

/// Reads a listing of comments, each with its replies down to `depth`
/// levels.
pub fn decode_reply_listing(json: &Json, depth: usize) -> (r: Option<Replies>)
    ensures
        r is Some <==> reply_listing_ok(*json, depth as nat),
        r matches Some(listing) ==> reply_listing_is(*json, listing, depth as nat),
    decreases depth, 4nat,
{
    let (kind, data) = match open_envelope(json) {
        Some(parts) => parts,
        None => {
            return None;
        },
    };
    let items = match data.items_member("children") {
        Some(items) => items,
        None => {
            return None;
        },
    };
    let mut children: Vec<BasicThing<CommentData>> = Vec::new();
    let mut i: usize = 0;
    while i < items.len()
        invariant
            i <= items.len(),
            children@.len() == i,
            json.spec_member("data"@) == Some(*data),
            data.items_at("children"@) == Some(items@),
            forall|k: int| 0 <= k < i ==> reply_child_ok(#[trigger] items@[k], depth as nat),
            forall|k: int|
                0 <= k < i ==> reply_child_is(#[trigger] items@[k], children@[k], depth as nat),
        decreases items.len() - i,
    {
        match decode_reply_child(&items[i], depth) {
            Some(child) => {
                children.push(child);
            },
            None => {
                assert(data.items_at("children"@)->0 == items@);
                return None;
            },
        }
        i += 1;
    }
    match listing_around(data, children) {
        Some(listing) => Some(BasicThing { kind, data: listing }),
        None => None,
    }
}

/// Reads the envelope of a comment and the comment in it.
pub fn decode_reply_child(json: &Json, depth: usize) -> (r: Option<BasicThing<CommentData>>)
    ensures
        r is Some <==> reply_child_ok(*json, depth as nat),
        r matches Some(child) ==> reply_child_is(*json, child, depth as nat),
    decreases depth, 3nat,
{
    match open_envelope(json) {
        Some((kind, data)) => match decode_comment(data, depth) {
            Some(comment) => Some(BasicThing { kind, data: comment }),
            None => None,
        },
        None => None,
    }
}

/// The replies below the comment go no deeper than `depth` levels.
pub open spec fn comment_fits(comment: CommentData, depth: nat) -> bool
    decreases depth, 0nat,
{
    match comment.replies {
        Some(MaybeReplies::Reply(listing)) => depth > 0 && listing_fits(
            listing,
            (depth - 1) as nat,
        ),
        _ => true,
    }
}

/// The replies below each comment of the listing go no deeper than `depth`
/// levels.
pub open spec fn listing_fits(listing: Replies, depth: nat) -> bool
    decreases depth, 1nat,
{
    forall|i: int|
        0 <= i < listing.data.children@.len() ==> comment_fits(
            (#[trigger] listing.data.children@[i]).data,
            depth,
        )
}

/// One of the names of the members that a comment is written with.
pub open spec fn comment_key(key: Seq<char>) -> bool {
    ||| key == "link_id"@
    ||| key == "author_flair_template_id"@
    ||| key == "id"@
    ||| key == "author"@
    ||| key == "parent_id"@
    ||| key == "author_fullname"@
    ||| key == "approved_by"@
    ||| key == "body"@
    ||| key == "name"@
    ||| key == "body_html"@
    ||| key == "subreddit"@
    ||| key == "author_flair_text_color"@
    ||| key == "permalink"@
    ||| key == "subreddit_name_prefixed"@
    ||| key == "author_flair_text"@
    ||| key == "subreddit_type"@
    ||| key == "saved"@
    ||| key == "archived"@
    ||| key == "no_follow"@
    ||| key == "can_mod_post"@
    ||| key == "send_replies"@
    ||| key == "author_patreon_flair"@
    ||| key == "is_submitter"@
    ||| key == "edited"@
    ||| key == "stickied"@
    ||| key == "author_premium"@
    ||| key == "can_gild"@
    ||| key == "score_hidden"@
    ||| key == "collapsed"@
    ||| key == "locked"@
    ||| key == "total_awards_received"@
    ||| key == "gilded"@
    ||| key == "score"@
    ||| key == "downs"@
    ||| key == "controversiality"@
    ||| key == "ups"@
    ||| key == "likes"@
    ||| key == "over_18"@
    ||| key == "quarantine"@
    ||| key == "subreddit_id"@
    ||| key == "link_title"@
    ||| key == "distinguished"@
    ||| key == "link_permalink"@
    ||| key == "link_author"@
    ||| key == "link_url"@
    ||| key == "num_reports"@
    ||| key == "num_comments"@
    ||| key == "depth"@
    ||| key == "replies"@
}

/// The member called `key` among these strings of a comment as they are
/// written.
pub open spec fn written_texts_1(comment: CommentData, key: Seq<char>) -> Option<Json> {
    if key == "link_id"@ {
        Some(Json::Str(comment.link_id))
    } else if key == "author_flair_template_id"@ {
        Some(Json::Str(comment.author_flair_template_id))
    } else if key == "id"@ {
        Some(Json::Str(comment.id))
    } else if key == "author"@ {
        Some(Json::Str(comment.author))
    } else {
        None
    }
}

fn put_texts_1(members: &mut Vec<(String, Json)>, comment: &CommentData)
    ensures
        forall|key: Seq<char>| #[trigger]
            lookup_from(final(members)@, key, 0) == match lookup_from(old(members)@, key, 0) {
                Some(found) => Some(found),
                None => written_texts_1(*comment, key),
            },
{
    put(members, "link_id", text_json(&comment.link_id));
    put(members, "author_flair_template_id", text_json(&comment.author_flair_template_id));
    put(members, "id", text_json(&comment.id));
    put(members, "author", text_json(&comment.author));
}

/// The member called `key` among these strings of a comment as they are
/// written.
pub open spec fn written_texts_2(comment: CommentData, key: Seq<char>) -> Option<Json> {
    if key == "parent_id"@ {
        Some(Json::Str(comment.parent_id))
    } else if key == "author_fullname"@ {
        Some(Json::Str(comment.author_fullname))
    } else if key == "approved_by"@ {
        Some(Json::Str(comment.approved_by))
    } else if key == "body"@ {
        Some(Json::Str(comment.body))
    } else {
        None
    }
}

fn put_texts_2(members: &mut Vec<(String, Json)>, comment: &CommentData)
    ensures
        forall|key: Seq<char>| #[trigger]
            lookup_from(final(members)@, key, 0) == match lookup_from(old(members)@, key, 0) {
                Some(found) => Some(found),
                None => written_texts_2(*comment, key),
            },
{
    put(members, "parent_id", text_json(&comment.parent_id));
    put(members, "author_fullname", text_json(&comment.author_fullname));
    put(members, "approved_by", text_json(&comment.approved_by));
    put(members, "body", text_json(&comment.body));
}

/// The member called `key` among these strings of a comment as they are
/// written.
pub open spec fn written_texts_3(comment: CommentData, key: Seq<char>) -> Option<Json> {
    if key == "name"@ {
        Some(Json::Str(comment.name))
    } else if key == "body_html"@ {
        Some(Json::Str(comment.body_html))
    } else if key == "subreddit"@ {
        Some(Json::Str(comment.subreddit))
    } else if key == "author_flair_text_color"@ {
        Some(Json::Str(comment.author_flair_text_color))
    } else {
        None
    }
}

fn put_texts_3(members: &mut Vec<(String, Json)>, comment: &CommentData)
    ensures
        forall|key: Seq<char>| #[trigger]
            lookup_from(final(members)@, key, 0) == match lookup_from(old(members)@, key, 0) {
                Some(found) => Some(found),
                None => written_texts_3(*comment, key),
            },
{
    put(members, "name", text_json(&comment.name));
    put(members, "body_html", text_json(&comment.body_html));
    put(members, "subreddit", text_json(&comment.subreddit));
    put(members, "author_flair_text_color", text_json(&comment.author_flair_text_color));
}

/// The member called `key` among these strings of a comment as they are
/// written.
pub open spec fn written_texts_4(comment: CommentData, key: Seq<char>) -> Option<Json> {
    if key == "permalink"@ {
        Some(Json::Str(comment.permalink))
    } else if key == "subreddit_name_prefixed"@ {
        Some(Json::Str(comment.subreddit_name_prefixed))
    } else if key == "author_flair_text"@ {
        Some(Json::Str(comment.author_flair_text))
    } else if key == "subreddit_type"@ {
        Some(Json::Str(comment.subreddit_type))
    } else {
        None
    }
}

fn put_texts_4(members: &mut Vec<(String, Json)>, comment: &CommentData)
    ensures
        forall|key: Seq<char>| #[trigger]
            lookup_from(final(members)@, key, 0) == match lookup_from(old(members)@, key, 0) {
                Some(found) => Some(found),
                None => written_texts_4(*comment, key),
            },
{
    put(members, "permalink", text_json(&comment.permalink));
    put(members, "subreddit_name_prefixed", text_json(&comment.subreddit_name_prefixed));
    put(members, "author_flair_text", text_json(&comment.author_flair_text));
    put(members, "subreddit_type", text_json(&comment.subreddit_type));
}

/// The member called `key` among the strings that a comment is written with.
pub open spec fn written_texts(comment: CommentData, key: Seq<char>) -> Option<Json> {
    if written_texts_1(comment, key) is Some {
        written_texts_1(comment, key)
    } else if written_texts_2(comment, key) is Some {
        written_texts_2(comment, key)
    } else if written_texts_3(comment, key) is Some {
        written_texts_3(comment, key)
    } else if written_texts_4(comment, key) is Some {
        written_texts_4(comment, key)
    } else {
        None
    }
}

proof fn lemma_written_texts(comment: CommentData)
    ensures
        written_texts(comment, "link_id"@) == Some(Json::Str(comment.link_id)),
        written_texts(comment, "author_flair_template_id"@) == Some(Json::Str(comment.author_flair_template_id)),
        written_texts(comment, "id"@) == Some(Json::Str(comment.id)),
        written_texts(comment, "author"@) == Some(Json::Str(comment.author)),
        written_texts(comment, "parent_id"@) == Some(Json::Str(comment.parent_id)),
        written_texts(comment, "author_fullname"@) == Some(Json::Str(comment.author_fullname)),
        written_texts(comment, "approved_by"@) == Some(Json::Str(comment.approved_by)),
        written_texts(comment, "body"@) == Some(Json::Str(comment.body)),
        written_texts(comment, "name"@) == Some(Json::Str(comment.name)),
        written_texts(comment, "body_html"@) == Some(Json::Str(comment.body_html)),
        written_texts(comment, "subreddit"@) == Some(Json::Str(comment.subreddit)),
        written_texts(comment, "author_flair_text_color"@) == Some(Json::Str(comment.author_flair_text_color)),
        written_texts(comment, "permalink"@) == Some(Json::Str(comment.permalink)),
        written_texts(comment, "subreddit_name_prefixed"@) == Some(Json::Str(comment.subreddit_name_prefixed)),
        written_texts(comment, "author_flair_text"@) == Some(Json::Str(comment.author_flair_text)),
        written_texts(comment, "subreddit_type"@) == Some(Json::Str(comment.subreddit_type)),
{
    lemma_member_names();
}

/// Puts the strings of a comment behind the members of an object under
/// construction.
fn put_texts(members: &mut Vec<(String, Json)>, comment: &CommentData)
    ensures
        forall|key: Seq<char>| #[trigger]
            lookup_from(final(members)@, key, 0) == match lookup_from(old(members)@, key, 0) {
                Some(found) => Some(found),
                None => written_texts(*comment, key),
            },
{
    put_texts_1(members, comment);
    put_texts_2(members, comment);
    put_texts_3(members, comment);
    put_texts_4(members, comment);
}

/// The member called `key` among these booleans of a comment as they are
/// written.
pub open spec fn written_flags_1(comment: CommentData, key: Seq<char>) -> Option<Json> {
    if key == "saved"@ {
        Some(Json::Bool(comment.saved))
    } else if key == "archived"@ {
        Some(Json::Bool(comment.archived))
    } else if key == "no_follow"@ {
        Some(Json::Bool(comment.no_follow))
    } else if key == "can_mod_post"@ {
        Some(Json::Bool(comment.can_mod_post))
    } else {
        None
    }
}

fn put_flags_1(members: &mut Vec<(String, Json)>, comment: &CommentData)
    ensures
        forall|key: Seq<char>| #[trigger]
            lookup_from(final(members)@, key, 0) == match lookup_from(old(members)@, key, 0) {
                Some(found) => Some(found),
                None => written_flags_1(*comment, key),
            },
{
    put(members, "saved", flag_json(comment.saved));
    put(members, "archived", flag_json(comment.archived));
    put(members, "no_follow", flag_json(comment.no_follow));
    put(members, "can_mod_post", flag_json(comment.can_mod_post));
}

/// The member called `key` among these booleans of a comment as they are
/// written.
pub open spec fn written_flags_2(comment: CommentData, key: Seq<char>) -> Option<Json> {
    if key == "send_replies"@ {
        Some(Json::Bool(comment.send_replies))
    } else if key == "author_patreon_flair"@ {
        Some(Json::Bool(comment.author_patreon_flair))
    } else if key == "is_submitter"@ {
        Some(Json::Bool(comment.is_submitter))
    } else if key == "edited"@ {
        Some(Json::Bool(comment.edited))
    } else {
        None
    }
}

fn put_flags_2(members: &mut Vec<(String, Json)>, comment: &CommentData)
    ensures
        forall|key: Seq<char>| #[trigger]
            lookup_from(final(members)@, key, 0) == match lookup_from(old(members)@, key, 0) {
                Some(found) => Some(found),
                None => written_flags_2(*comment, key),
            },
{
    put(members, "send_replies", flag_json(comment.send_replies));
    put(members, "author_patreon_flair", flag_json(comment.author_patreon_flair));
    put(members, "is_submitter", flag_json(comment.is_submitter));
    put(members, "edited", flag_json(comment.edited));
}

/// The member called `key` among these booleans of a comment as they are
/// written.
pub open spec fn written_flags_3(comment: CommentData, key: Seq<char>) -> Option<Json> {
    if key == "stickied"@ {
        Some(Json::Bool(comment.stickied))
    } else if key == "author_premium"@ {
        Some(Json::Bool(comment.author_premium))
    } else if key == "can_gild"@ {
        Some(Json::Bool(comment.can_gild))
    } else if key == "score_hidden"@ {
        Some(Json::Bool(comment.score_hidden))
    } else {
        None
    }
}

fn put_flags_3(members: &mut Vec<(String, Json)>, comment: &CommentData)
    ensures
        forall|key: Seq<char>| #[trigger]
            lookup_from(final(members)@, key, 0) == match lookup_from(old(members)@, key, 0) {
                Some(found) => Some(found),
                None => written_flags_3(*comment, key),
            },
{
    put(members, "stickied", flag_json(comment.stickied));
    put(members, "author_premium", flag_json(comment.author_premium));
    put(members, "can_gild", flag_json(comment.can_gild));
    put(members, "score_hidden", flag_json(comment.score_hidden));
}

/// The member called `key` among these booleans of a comment as they are
/// written.
pub open spec fn written_flags_4(comment: CommentData, key: Seq<char>) -> Option<Json> {
    if key == "collapsed"@ {
        Some(Json::Bool(comment.collapsed))
    } else if key == "locked"@ {
        Some(Json::Bool(comment.locked))
    } else {
        None
    }
}

fn put_flags_4(members: &mut Vec<(String, Json)>, comment: &CommentData)
    ensures
        forall|key: Seq<char>| #[trigger]
            lookup_from(final(members)@, key, 0) == match lookup_from(old(members)@, key, 0) {
                Some(found) => Some(found),
                None => written_flags_4(*comment, key),
            },
{
    put(members, "collapsed", flag_json(comment.collapsed));
    put(members, "locked", flag_json(comment.locked));
}

/// The member called `key` among the booleans that a comment is written with.
pub open spec fn written_flags(comment: CommentData, key: Seq<char>) -> Option<Json> {
    if written_flags_1(comment, key) is Some {
        written_flags_1(comment, key)
    } else if written_flags_2(comment, key) is Some {
        written_flags_2(comment, key)
    } else if written_flags_3(comment, key) is Some {
        written_flags_3(comment, key)
    } else if written_flags_4(comment, key) is Some {
        written_flags_4(comment, key)
    } else {
        None
    }
}

proof fn lemma_written_flags(comment: CommentData)
    ensures
        written_texts(comment, "saved"@) is None,
        written_flags(comment, "saved"@) == Some(Json::Bool(comment.saved)),
        written_texts(comment, "archived"@) is None,
        written_flags(comment, "archived"@) == Some(Json::Bool(comment.archived)),
        written_texts(comment, "no_follow"@) is None,
        written_flags(comment, "no_follow"@) == Some(Json::Bool(comment.no_follow)),
        written_texts(comment, "can_mod_post"@) is None,
        written_flags(comment, "can_mod_post"@) == Some(Json::Bool(comment.can_mod_post)),
        written_texts(comment, "send_replies"@) is None,
        written_flags(comment, "send_replies"@) == Some(Json::Bool(comment.send_replies)),
        written_texts(comment, "author_patreon_flair"@) is None,
        written_flags(comment, "author_patreon_flair"@) == Some(Json::Bool(comment.author_patreon_flair)),
        written_texts(comment, "is_submitter"@) is None,
        written_flags(comment, "is_submitter"@) == Some(Json::Bool(comment.is_submitter)),
        written_texts(comment, "edited"@) is None,
        written_flags(comment, "edited"@) == Some(Json::Bool(comment.edited)),
        written_texts(comment, "stickied"@) is None,
        written_flags(comment, "stickied"@) == Some(Json::Bool(comment.stickied)),
        written_texts(comment, "author_premium"@) is None,
        written_flags(comment, "author_premium"@) == Some(Json::Bool(comment.author_premium)),
        written_texts(comment, "can_gild"@) is None,
        written_flags(comment, "can_gild"@) == Some(Json::Bool(comment.can_gild)),
        written_texts(comment, "score_hidden"@) is None,
        written_flags(comment, "score_hidden"@) == Some(Json::Bool(comment.score_hidden)),
        written_texts(comment, "collapsed"@) is None,
        written_flags(comment, "collapsed"@) == Some(Json::Bool(comment.collapsed)),
        written_texts(comment, "locked"@) is None,
        written_flags(comment, "locked"@) == Some(Json::Bool(comment.locked)),
{
    lemma_member_names();
}

/// Puts the booleans of a comment behind the members of an object under
/// construction.
fn put_flags(members: &mut Vec<(String, Json)>, comment: &CommentData)
    ensures
        forall|key: Seq<char>| #[trigger]
            lookup_from(final(members)@, key, 0) == match lookup_from(old(members)@, key, 0) {
                Some(found) => Some(found),
                None => written_flags(*comment, key),
            },
{
    put_flags_1(members, comment);
    put_flags_2(members, comment);
    put_flags_3(members, comment);
    put_flags_4(members, comment);
}

/// The member called `key` among these numbers of a comment as they are
/// written.
pub open spec fn written_numbers_1(comment: CommentData, key: Seq<char>) -> Option<Json> {
    if key == "total_awards_received"@ {
        Some(i32_value(comment.total_awards_received))
    } else if key == "gilded"@ {
        Some(i32_value(comment.gilded))
    } else if key == "score"@ {
        Some(i32_value(comment.score))
    } else if key == "downs"@ {
        Some(i32_value(comment.downs))
    } else {
        None
    }
}

fn put_numbers_1(members: &mut Vec<(String, Json)>, comment: &CommentData)
    ensures
        forall|key: Seq<char>| #[trigger]
            lookup_from(final(members)@, key, 0) == match lookup_from(old(members)@, key, 0) {
                Some(found) => Some(found),
                None => written_numbers_1(*comment, key),
            },
{
    put(members, "total_awards_received", i32_json(comment.total_awards_received));
    put(members, "gilded", i32_json(comment.gilded));
    put(members, "score", i32_json(comment.score));
    put(members, "downs", i32_json(comment.downs));
}

/// The member called `key` among these numbers of a comment as they are
/// written.
pub open spec fn written_numbers_2(comment: CommentData, key: Seq<char>) -> Option<Json> {
    if key == "controversiality"@ {
        Some(i32_value(comment.controversiality))
    } else if key == "ups"@ {
        Some(i32_value(comment.ups))
    } else {
        None
    }
}

fn put_numbers_2(members: &mut Vec<(String, Json)>, comment: &CommentData)
    ensures
        forall|key: Seq<char>| #[trigger]
            lookup_from(final(members)@, key, 0) == match lookup_from(old(members)@, key, 0) {
                Some(found) => Some(found),
                None => written_numbers_2(*comment, key),
            },
{
    put(members, "controversiality", i32_json(comment.controversiality));
    put(members, "ups", i32_json(comment.ups));
}

/// The member called `key` among the numbers that a comment is written with.
pub open spec fn written_numbers(comment: CommentData, key: Seq<char>) -> Option<Json> {
    if written_numbers_1(comment, key) is Some {
        written_numbers_1(comment, key)
    } else if written_numbers_2(comment, key) is Some {
        written_numbers_2(comment, key)
    } else {
        None
    }
}

proof fn lemma_written_numbers(comment: CommentData)
    ensures
        written_texts(comment, "total_awards_received"@) is None,
        written_flags(comment, "total_awards_received"@) is None,
        written_numbers(comment, "total_awards_received"@) == Some(i32_value(comment.total_awards_received)),
        written_texts(comment, "gilded"@) is None,
        written_flags(comment, "gilded"@) is None,
        written_numbers(comment, "gilded"@) == Some(i32_value(comment.gilded)),
        written_texts(comment, "score"@) is None,
        written_flags(comment, "score"@) is None,
        written_numbers(comment, "score"@) == Some(i32_value(comment.score)),
        written_texts(comment, "downs"@) is None,
        written_flags(comment, "downs"@) is None,
        written_numbers(comment, "downs"@) == Some(i32_value(comment.downs)),
        written_texts(comment, "controversiality"@) is None,
        written_flags(comment, "controversiality"@) is None,
        written_numbers(comment, "controversiality"@) == Some(i32_value(comment.controversiality)),
        written_texts(comment, "ups"@) is None,
        written_flags(comment, "ups"@) is None,
        written_numbers(comment, "ups"@) == Some(i32_value(comment.ups)),
{
    lemma_member_names();
}

/// Puts the numbers of a comment behind the members of an object under
/// construction.
fn put_numbers(members: &mut Vec<(String, Json)>, comment: &CommentData)
    ensures
        forall|key: Seq<char>| #[trigger]
            lookup_from(final(members)@, key, 0) == match lookup_from(old(members)@, key, 0) {
                Some(found) => Some(found),
                None => written_numbers(*comment, key),
            },
{
    put_numbers_1(members, comment);
    put_numbers_2(members, comment);
}

/// The member called `key` among these members that may be left out of a comment as they are
/// written.
pub open spec fn written_options_1(comment: CommentData, key: Seq<char>) -> Option<Json> {
    if key == "likes"@ {
        Some(optional_flag_value(comment.likes))
    } else if key == "over_18"@ {
        Some(optional_flag_value(comment.over_18))
    } else if key == "quarantine"@ {
        Some(optional_flag_value(comment.quarantine))
    } else if key == "subreddit_id"@ {
        Some(optional_text_value(comment.subreddit_id))
    } else {
        None
    }
}

fn put_options_1(members: &mut Vec<(String, Json)>, comment: &CommentData)
    ensures
        forall|key: Seq<char>| #[trigger]
            lookup_from(final(members)@, key, 0) == match lookup_from(old(members)@, key, 0) {
                Some(found) => Some(found),
                None => written_options_1(*comment, key),
            },
{
    put(members, "likes", optional_flag_json(comment.likes));
    put(members, "over_18", optional_flag_json(comment.over_18));
    put(members, "quarantine", optional_flag_json(comment.quarantine));
    put(members, "subreddit_id", optional_text_json(&comment.subreddit_id));
}

/// The member called `key` among these members that may be left out of a comment as they are
/// written.
pub open spec fn written_options_2(comment: CommentData, key: Seq<char>) -> Option<Json> {
    if key == "link_title"@ {
        Some(optional_text_value(comment.link_title))
    } else if key == "distinguished"@ {
        Some(optional_text_value(comment.distinguished))
    } else if key == "link_permalink"@ {
        Some(optional_text_value(comment.link_permalink))
    } else if key == "link_author"@ {
        Some(optional_text_value(comment.link_author))
    } else {
        None
    }
}

fn put_options_2(members: &mut Vec<(String, Json)>, comment: &CommentData)
    ensures
        forall|key: Seq<char>| #[trigger]
            lookup_from(final(members)@, key, 0) == match lookup_from(old(members)@, key, 0) {
                Some(found) => Some(found),
                None => written_options_2(*comment, key),
            },
{
    put(members, "link_title", optional_text_json(&comment.link_title));
    put(members, "distinguished", optional_text_json(&comment.distinguished));
    put(members, "link_permalink", optional_text_json(&comment.link_permalink));
    put(members, "link_author", optional_text_json(&comment.link_author));
}

/// The member called `key` among these members that may be left out of a comment as they are
/// written.
pub open spec fn written_options_3(comment: CommentData, key: Seq<char>) -> Option<Json> {
    if key == "link_url"@ {
        Some(optional_text_value(comment.link_url))
    } else if key == "num_reports"@ {
        Some(optional_i32_value(comment.num_reports))
    } else if key == "num_comments"@ {
        Some(optional_i32_value(comment.num_comments))
    } else if key == "depth"@ {
        Some(optional_i32_value(comment.depth))
    } else {
        None
    }
}

fn put_options_3(members: &mut Vec<(String, Json)>, comment: &CommentData)
    ensures
        forall|key: Seq<char>| #[trigger]
            lookup_from(final(members)@, key, 0) == match lookup_from(old(members)@, key, 0) {
                Some(found) => Some(found),
                None => written_options_3(*comment, key),
            },
{
    put(members, "link_url", optional_text_json(&comment.link_url));
    put(members, "num_reports", optional_i32_json(comment.num_reports));
    put(members, "num_comments", optional_i32_json(comment.num_comments));
    put(members, "depth", optional_i32_json(comment.depth));
}

/// The member called `key` among the members that may be left out that a comment is written with.
pub open spec fn written_options(comment: CommentData, key: Seq<char>) -> Option<Json> {
    if written_options_1(comment, key) is Some {
        written_options_1(comment, key)
    } else if written_options_2(comment, key) is Some {
        written_options_2(comment, key)
    } else if written_options_3(comment, key) is Some {
        written_options_3(comment, key)
    } else {
        None
    }
}

proof fn lemma_written_options(comment: CommentData)
    ensures
        written_texts(comment, "likes"@) is None,
        written_flags(comment, "likes"@) is None,
        written_numbers(comment, "likes"@) is None,
        written_options(comment, "likes"@) == Some(optional_flag_value(comment.likes)),
        written_texts(comment, "over_18"@) is None,
        written_flags(comment, "over_18"@) is None,
        written_numbers(comment, "over_18"@) is None,
        written_options(comment, "over_18"@) == Some(optional_flag_value(comment.over_18)),
        written_texts(comment, "quarantine"@) is None,
        written_flags(comment, "quarantine"@) is None,
        written_numbers(comment, "quarantine"@) is None,
        written_options(comment, "quarantine"@) == Some(optional_flag_value(comment.quarantine)),
        written_texts(comment, "subreddit_id"@) is None,
        written_flags(comment, "subreddit_id"@) is None,
        written_numbers(comment, "subreddit_id"@) is None,
        written_options(comment, "subreddit_id"@) == Some(optional_text_value(comment.subreddit_id)),
        written_texts(comment, "link_title"@) is None,
        written_flags(comment, "link_title"@) is None,
        written_numbers(comment, "link_title"@) is None,
        written_options(comment, "link_title"@) == Some(optional_text_value(comment.link_title)),
        written_texts(comment, "distinguished"@) is None,
        written_flags(comment, "distinguished"@) is None,
        written_numbers(comment, "distinguished"@) is None,
        written_options(comment, "distinguished"@) == Some(optional_text_value(comment.distinguished)),
        written_texts(comment, "link_permalink"@) is None,
        written_flags(comment, "link_permalink"@) is None,
        written_numbers(comment, "link_permalink"@) is None,
        written_options(comment, "link_permalink"@) == Some(optional_text_value(comment.link_permalink)),
        written_texts(comment, "link_author"@) is None,
        written_flags(comment, "link_author"@) is None,
        written_numbers(comment, "link_author"@) is None,
        written_options(comment, "link_author"@) == Some(optional_text_value(comment.link_author)),
        written_texts(comment, "link_url"@) is None,
        written_flags(comment, "link_url"@) is None,
        written_numbers(comment, "link_url"@) is None,
        written_options(comment, "link_url"@) == Some(optional_text_value(comment.link_url)),
        written_texts(comment, "num_reports"@) is None,
        written_flags(comment, "num_reports"@) is None,
        written_numbers(comment, "num_reports"@) is None,
        written_options(comment, "num_reports"@) == Some(optional_i32_value(comment.num_reports)),
        written_texts(comment, "num_comments"@) is None,
        written_flags(comment, "num_comments"@) is None,
        written_numbers(comment, "num_comments"@) is None,
        written_options(comment, "num_comments"@) == Some(optional_i32_value(comment.num_comments)),
        written_texts(comment, "depth"@) is None,
        written_flags(comment, "depth"@) is None,
        written_numbers(comment, "depth"@) is None,
        written_options(comment, "depth"@) == Some(optional_i32_value(comment.depth)),
{
    lemma_member_names();
}

/// Puts the members that may be left out of a comment behind the members of an object under
/// construction.
fn put_options(members: &mut Vec<(String, Json)>, comment: &CommentData)
    ensures
        forall|key: Seq<char>| #[trigger]
            lookup_from(final(members)@, key, 0) == match lookup_from(old(members)@, key, 0) {
                Some(found) => Some(found),
                None => written_options(*comment, key),
            },
{
    put_options_1(members, comment);
    put_options_2(members, comment);
    put_options_3(members, comment);
}

/// The member called `key` of the object that a comment is written as, where
/// `replies` is what its replies are written as.
pub open spec fn written_member(comment: CommentData, replies: Json, key: Seq<char>) -> Option<
    Json,
> {
    if written_texts(comment, key) is Some {
        written_texts(comment, key)
    } else if written_flags(comment, key) is Some {
        written_flags(comment, key)
    } else if written_numbers(comment, key) is Some {
        written_numbers(comment, key)
    } else if written_options(comment, key) is Some {
        written_options(comment, key)
    } else if key == "replies"@ {
        Some(replies)
    } else {
        None
    }
}

proof fn lemma_written_replies(comment: CommentData)
    ensures
        written_texts(comment, "replies"@) is None,
        written_flags(comment, "replies"@) is None,
        written_numbers(comment, "replies"@) is None,
        written_options(comment, "replies"@) is None,
{
    lemma_member_names();
}

proof fn lemma_texts_written(json: Json, comment: CommentData, replies: Json)
    requires
        forall|key: Seq<char>| #[trigger]
            json.spec_member(key) == written_member(comment, replies, key),
    ensures
        comment_texts_ok(json),
        comment_texts_are(json, comment),
{
    lemma_written_texts(comment);
}

proof fn lemma_flags_written(json: Json, comment: CommentData, replies: Json)
    requires
        forall|key: Seq<char>| #[trigger]
            json.spec_member(key) == written_member(comment, replies, key),
    ensures
        comment_flags_ok(json),
        comment_flags_are(json, comment),
{
    lemma_written_flags(comment);
}

proof fn lemma_numbers_written(json: Json, comment: CommentData, replies: Json)
    requires
        forall|key: Seq<char>| #[trigger]
            json.spec_member(key) == written_member(comment, replies, key),
    ensures
        comment_numbers_ok(json),
        comment_numbers_are(json, comment),
{
    lemma_written_numbers(comment);
}

proof fn lemma_options_written(json: Json, comment: CommentData, replies: Json)
    requires
        forall|key: Seq<char>| #[trigger]
            json.spec_member(key) == written_member(comment, replies, key),
    ensures
        comment_options_ok(json),
        comment_options_are(json, comment),
{
    lemma_written_options(comment);
}

proof fn lemma_replies_written(json: Json, comment: CommentData, replies: Json)
    requires
        forall|key: Seq<char>| #[trigger]
            json.spec_member(key) == written_member(comment, replies, key),
    ensures
        json.spec_member("replies"@) == Some(replies),
        forall|key: Seq<char>| #[trigger] json.spec_member(key) is Some ==> comment_key(key),
{
    lemma_written_replies(comment);
}

/// Writes a comment as a JSON object that stands for it, replies included:
/// `null` for none, the string for a string, the listing written in the same
/// way for a listing. A comment whose replies go deeper than `depth` levels
/// is not written.
pub fn encode_comment(comment: &CommentData, depth: usize) -> (r: Option<Json>)
    ensures
        r is Some <==> comment_fits(*comment, depth as nat),
        r matches Some(json) ==> comment_ok(json, depth as nat) && comment_is(
            json,
            *comment,
            depth as nat,
        ) && forall|key: Seq<char>| #[trigger] json.spec_member(key) is Some ==> comment_key(key),
    decreases depth, 0nat,
{
    let replies = match &comment.replies {
        None => Json::Null,
        Some(MaybeReplies::Str(text)) => text_json(text),
        Some(MaybeReplies::Reply(listing)) => {
            if depth == 0 {
                return None;
            }
            match encode_reply_listing(listing, depth - 1) {
                Some(json) => json,
                None => {
                    return None;
                },
            }
        },
    };
    let mut members = no_members();
    put_texts(&mut members, comment);
    put_flags(&mut members, comment);
    put_numbers(&mut members, comment);
    put_options(&mut members, comment);
    put(&mut members, "replies", replies);
    let json = Json::Object(members);
    proof {
        assert forall|key: Seq<char>| #[trigger]
            json.spec_member(key) == written_member(*comment, replies, key) by {}
        lemma_texts_written(json, *comment, replies);
        lemma_flags_written(json, *comment, replies);
        lemma_numbers_written(json, *comment, replies);
        lemma_options_written(json, *comment, replies);
        lemma_replies_written(json, *comment, replies);
    }
    Some(json)
}

/// Writes a listing of comments as a JSON object that stands for it. A
/// listing with a comment whose replies go deeper than `depth` levels is not
/// written.
pub fn encode_reply_listing(listing: &Replies, depth: usize) -> (r: Option<Json>)
    ensures
        r is Some <==> listing_fits(*listing, depth as nat),
        r matches Some(json) ==> reply_listing_ok(json, depth as nat) && reply_listing_is(
            json,
            *listing,
            depth as nat,
        ) && !(json is Null),
    decreases depth, 1nat,
{
    let mut items: Vec<Json> = Vec::new();
    let mut i: usize = 0;
    while i < listing.data.children.len()
        invariant
            i <= listing.data.children.len(),
            items@.len() == i,
            forall|k: int|
                0 <= k < i ==> comment_fits(
                    (#[trigger] listing.data.children@[k]).data,
                    depth as nat,
                ),
            forall|k: int| 0 <= k < i ==> reply_child_ok(#[trigger] items@[k], depth as nat),
            forall|k: int|
                0 <= k < i ==> reply_child_is(
                    #[trigger] items@[k],
                    listing.data.children@[k],
                    depth as nat,
                ),
        decreases listing.data.children.len() - i,
    {
        let child = &listing.data.children[i];
        let inner = match encode_comment(&child.data, depth) {
            Some(inner) => inner,
            None => {
                return None;
            },
        };
        let mut thing = no_members();
        put(&mut thing, "kind", text_json(&child.kind));
        put(&mut thing, "data", inner);
        let item = Json::Object(thing);
        proof {
            lemma_member_names();
        }
        items.push(item);
        i += 1;
    }
    let mut data = no_members();
    put(&mut data, "modhash", optional_text_json(&listing.data.modhash));
    put(&mut data, "dist", optional_i32_json(listing.data.dist));
    put(&mut data, "after", optional_text_json(&listing.data.after));
    put(&mut data, "before", optional_text_json(&listing.data.before));
    put(&mut data, "children", Json::Array(items));
    let inner = Json::Object(data);
    let mut outer = no_members();
    put(&mut outer, "kind", text_json(&listing.kind));
    put(&mut outer, "data", inner);
    let json = Json::Object(outer);
    proof {
        lemma_member_names();
    }
    Some(json)
}

impl Payload for CommentData {
    open spec fn accepts(json: Json) -> bool {
        comment_ok(json, REPLY_DEPTH as nat)
    }

    open spec fn represents(json: Json, value: CommentData) -> bool {
        comment_is(json, value, REPLY_DEPTH as nat)
    }

    fn decode(json: &Json) -> (r: Option<CommentData>) {
        decode_comment(json, REPLY_DEPTH)
    }
}

} // verus!
