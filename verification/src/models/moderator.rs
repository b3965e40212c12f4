//! # Moderators
//! Who moderates a subreddit.

use vstd::prelude::*;
use crate::json::Json;
use crate::models::response::{BasicThing, Listing, Payload};
use crate::util::option::text_of;

verus! {

/// A moderator of a subreddit.
#[derive(Debug)]
pub struct ModeratorData {
    /// ID
    pub id: Option<String>,
    /// Name
    pub name: Option<String>,
    /// Flair text
    pub author_flair_text: Option<String>,
    /// What the moderator may do
    pub mod_permissions: Option<Vec<String>>,
}

/// The moderators of a subreddit.
pub type Moderators = BasicThing<Listing<ModeratorData>>;

/// Every element is a string.
pub open spec fn all_text(items: Seq<Json>) -> bool {
    forall|i: int| 0 <= i < items.len() ==> (#[trigger] items[i]).spec_text() is Some
}

/// The elements are the strings `texts`, one by one.
pub open spec fn texts_are(items: Seq<Json>, texts: Seq<String>) -> bool {
    &&& texts.len() == items.len()
    &&& forall|i: int| 0 <= i < items.len() ==> (#[trigger] items[i]).spec_text() == Some(texts[i]@)
}

/// Copies of the strings of a list whose elements are all strings.
pub fn as_texts(items: &Vec<Json>) -> (r: Option<Vec<String>>)
    ensures
        r is Some <==> all_text(items@),
        r matches Some(texts) ==> texts_are(items@, texts@),
{
    let mut texts: Vec<String> = Vec::new();
    let mut i: usize = 0;
    while i < items.len()
        invariant
            i <= items.len(),
            texts@.len() == i,
            forall|k: int| 0 <= k < i ==> (#[trigger] items@[k]).spec_text() == Some(texts@[k]@),
        decreases items.len() - i,
    {
        match items[i].as_text() {
            Some(text) => {
                texts.push(text.to_owned());
            },
            None => {
                return None;
            },
        }
        i += 1;
    }
    Some(texts)
}

/// The member `mod_permissions` is absent or null, or a list of strings.
pub open spec fn permissions_ok(json: Json) -> bool {
    json.missing("mod_permissions"@) || (json.items_at("mod_permissions"@) matches Some(items)
        && all_text(items))
}

/// The member `mod_permissions` stands for `permissions`.
pub open spec fn permissions_are(json: Json, permissions: Option<Vec<String>>) -> bool {
    match permissions {
        None => json.missing("mod_permissions"@),
        Some(texts) => !json.missing("mod_permissions"@) && (json.items_at("mod_permissions"@)
            matches Some(items) && texts_are(items, texts@)),
    }
}

/// Reads the member `mod_permissions`.
pub fn decode_permissions(json: &Json) -> (r: Option<Option<Vec<String>>>)
    ensures
        r is Some <==> permissions_ok(*json),
        r matches Some(permissions) ==> permissions_are(*json, permissions),
{
    match json.member("mod_permissions") {
        None => Some(None),
        Some(value) => if value.is_null() {
            Some(None)
        } else {
            match value.as_items() {
                Some(items) => match as_texts(items) {
                    Some(texts) => Some(Some(texts)),
                    None => None,
                },
                None => None,
            }
        },
    }
}

impl Payload for ModeratorData {
    open spec fn accepts(json: Json) -> bool {
        &&& json.optional_text_ok("id"@)
        &&& json.optional_text_ok("name"@)
        &&& json.optional_text_ok("author_flair_text"@)
        &&& permissions_ok(json)
    }

    open spec fn represents(json: Json, value: ModeratorData) -> bool {
        &&& json.text_at("id"@) == text_of(value.id)
        &&& json.text_at("name"@) == text_of(value.name)
        &&& json.text_at("author_flair_text"@) == text_of(value.author_flair_text)
        &&& permissions_are(json, value.mod_permissions)
    }

    fn decode(json: &Json) -> (r: Option<ModeratorData>) {
        let id = match json.optional_text_member("id") {
            Some(id) => id,
            None => {
                return None;
            },
        };
        let name = match json.optional_text_member("name") {
            Some(name) => name,
            None => {
                return None;
            },
        };
        let author_flair_text = match json.optional_text_member("author_flair_text") {
            Some(text) => text,
            None => {
                return None;
            },
        };
        match decode_permissions(json) {
            Some(mod_permissions) => Some(
                ModeratorData { id, name, author_flair_text, mod_permissions },
            ),
            None => None,
        }
    }
}

} // verus!
