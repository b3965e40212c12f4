//! # Submissions
//! A post.

use vstd::prelude::*;
use crate::json::{no_members, optional_text_json, put, text_json, Json};
use crate::models::response::{lemma_member_names, BasicListing, Payload};
use crate::util::option::text_of;

verus! {

/// A post.
#[derive(Debug)]
pub struct SubmissionData {
    /// ID, every basic thing has an id
    pub id: String,
    /// Name: the kind's prefix, an underscore and the id
    pub name: String,
    /// Title
    pub title: String,
    /// Author
    pub author: String,
    /// Subreddit, name of subreddit
    pub subreddit: String,
    /// The linked address, where the post is a link
    pub url: Option<String>,
}

/// A page of posts.
pub type Submissions = BasicListing<SubmissionData>;

impl SubmissionData {
    /// Writes the post as a JSON object that stands for it.
    pub fn to_json(&self) -> (json: Json)
        ensures
            SubmissionData::accepts(json),
            SubmissionData::represents(json, *self),
    {
        let mut members = no_members();
        put(&mut members, "id", text_json(&self.id));
        put(&mut members, "name", text_json(&self.name));
        put(&mut members, "title", text_json(&self.title));
        put(&mut members, "author", text_json(&self.author));
        put(&mut members, "subreddit", text_json(&self.subreddit));
        put(&mut members, "url", optional_text_json(&self.url));
        proof {
            lemma_member_names();
        }
        Json::Object(members)
    }
}

impl Payload for SubmissionData {
    open spec fn accepts(json: Json) -> bool {
        &&& json.text_at("id"@) is Some
        &&& json.text_at("name"@) is Some
        &&& json.text_at("title"@) is Some
        &&& json.text_at("author"@) is Some
        &&& json.text_at("subreddit"@) is Some
        &&& json.optional_text_ok("url"@)
    }

    open spec fn represents(json: Json, value: SubmissionData) -> bool {
        &&& json.text_at("id"@) == Some(value.id@)
        &&& json.text_at("name"@) == Some(value.name@)
        &&& json.text_at("title"@) == Some(value.title@)
        &&& json.text_at("author"@) == Some(value.author@)
        &&& json.text_at("subreddit"@) == Some(value.subreddit@)
        &&& json.text_at("url"@) == text_of(value.url)
    }

    fn decode(json: &Json) -> (r: Option<SubmissionData>) {
        let id = match json.text_member("id") {
            Some(id) => id,
            None => {
                return None;
            },
        };
        let name = match json.text_member("name") {
            Some(name) => name,
            None => {
                return None;
            },
        };
        let title = match json.text_member("title") {
            Some(title) => title,
            None => {
                return None;
            },
        };
        let author = match json.text_member("author") {
            Some(author) => author,
            None => {
                return None;
            },
        };
        let subreddit = match json.text_member("subreddit") {
            Some(subreddit) => subreddit,
            None => {
                return None;
            },
        };
        match json.optional_text_member("url") {
            Some(url) => Some(SubmissionData { id, name, title, author, subreddit, url }),
            None => None,
        }
    }
}

} // verus!
