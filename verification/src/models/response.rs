//! # Responses
//! The envelope that wraps every object of the API, the listing that holds a
//! page of them, and how both are read from JSON whatever they wrap.

use vstd::prelude::*;
use vstd::string::*;
use crate::json::{document, parse, shape_error, Json};
use crate::util::error::RouxError;
use crate::util::option::text_of;

verus! {

/// Basic structure of a Reddit response.
#[derive(Debug)]
pub struct BasicThing<T> {
    /// An identifier that specifies the type of object that this is.
    pub kind: String,
    /// The data contained by this struct. This will vary depending on the type parameter
    /// because each endpoint returns different contents.
    pub data: T,
}

/// JSON list response.
#[derive(Debug)]
pub struct Listing<T> {
    /// Modhash
    pub modhash: Option<String>,
    /// The number of children in the listing.
    pub dist: Option<i32>,
    /// The fullname of the listing that follows after this page.
    pub after: Option<String>,
    /// The fullname of the listing that follows before this page.
    pub before: Option<String>,
    /// A list of `things` that this Listing wraps.
    pub children: Vec<T>,
}

/// Often times a basic thing will have this structure.
pub type BasicListing<T> = BasicThing<Listing<BasicThing<T>>>;

/// A type of values that are read from JSON.
pub trait Payload: Sized {
    /// The JSON value has the shape of a value of this type.
    spec fn accepts(json: Json) -> bool;

    /// The JSON value stands for `value`.
    spec fn represents(json: Json, value: Self) -> bool;

    /// Reads a value of this type: `Some` exactly for a JSON value of the
    /// type's shape, and then the value that it stands for.
    fn decode(json: &Json) -> (r: Option<Self>)
        ensures
            r is Some <==> Self::accepts(*json),
            r matches Some(value) ==> Self::represents(*json, value),
    ;
}

/// The JSON value has a string `kind` and a member `data`.
pub open spec fn envelope_ok(json: Json) -> bool {
    json.text_at("kind"@) is Some && json.spec_member("data"@) is Some
}

/// The `kind` and the `data` of an envelope.
pub fn open_envelope(json: &Json) -> (r: Option<(String, &Json)>)
    ensures
        r is Some <==> envelope_ok(*json),
        r matches Some(parts) ==> Some(parts.0@) == json.text_at("kind"@) && Some(*parts.1)
            == json.spec_member("data"@),
{
    let kind = match json.text_member("kind") {
        Some(kind) => kind,
        None => {
            return None;
        },
    };
    match json.member("data") {
        Some(data) => Some((kind, data)),
        None => None,
    }
}

/// The cursors and counters of a listing have their shapes.
pub open spec fn listing_head_ok(json: Json) -> bool {
    &&& json.optional_text_ok("modhash"@)
    &&& json.optional_i32_ok("dist"@)
    &&& json.optional_text_ok("after"@)
    &&& json.optional_text_ok("before"@)
}

/// The cursors and counters of `listing` are those of the JSON value.
pub open spec fn listing_head_is<T>(json: Json, listing: Listing<T>) -> bool {
    &&& text_of(listing.modhash) == json.text_at("modhash"@)
    &&& listing.dist == json.i32_at("dist"@)
    &&& text_of(listing.after) == json.text_at("after"@)
    &&& text_of(listing.before) == json.text_at("before"@)
}

/// Reads the cursors and counters of a listing and puts them round the
/// given children.
pub fn listing_around<T>(json: &Json, children: Vec<T>) -> (r: Option<Listing<T>>)
    ensures
        r is Some <==> listing_head_ok(*json),
        r matches Some(listing) ==> listing_head_is(*json, listing) && listing.children
            == children,
{
    let modhash = match json.optional_text_member("modhash") {
        Some(modhash) => modhash,
        None => {
            return None;
        },
    };
    let dist = match json.optional_i32_member("dist") {
        Some(dist) => dist,
        None => {
            return None;
        },
    };
    let after = match json.optional_text_member("after") {
        Some(after) => after,
        None => {
            return None;
        },
    };
    let before = match json.optional_text_member("before") {
        Some(before) => before,
        None => {
            return None;
        },
    };
    Some(Listing { modhash, dist, after, before, children })
}

impl<T: Payload> Payload for BasicThing<T> {
    open spec fn accepts(json: Json) -> bool {
        envelope_ok(json) && T::accepts(json.spec_member("data"@)->0)
    }

    open spec fn represents(json: Json, value: BasicThing<T>) -> bool {
        &&& json.text_at("kind"@) == Some(value.kind@)
        &&& json.spec_member("data"@) is Some
        &&& T::represents(json.spec_member("data"@)->0, value.data)
    }

    fn decode(json: &Json) -> (r: Option<BasicThing<T>>) {
        match open_envelope(json) {
            Some((kind, inner)) => match T::decode(inner) {
                Some(data) => Some(BasicThing { kind, data }),
                None => None,
            },
            None => None,
        }
    }
}

impl<T: Payload> Payload for Listing<T> {
    open spec fn accepts(json: Json) -> bool {
        &&& listing_head_ok(json)
        &&& json.items_at("children"@) matches Some(items) && forall|i: int|
            0 <= i < items.len() ==> T::accepts(#[trigger] items[i])
    }

    open spec fn represents(json: Json, value: Listing<T>) -> bool {
        &&& listing_head_is(json, value)
        &&& json.items_at("children"@) matches Some(items) && value.children@.len()
            == items.len() && forall|i: int|
            0 <= i < items.len() ==> T::represents(#[trigger] items[i], value.children@[i])
    }

    fn decode(json: &Json) -> (r: Option<Listing<T>>) {
        let items = match json.items_member("children") {
            Some(items) => items,
            None => {
                return None;
            },
        };
        let mut children: Vec<T> = Vec::new();
        let mut i: usize = 0;
        while i < items.len()
            invariant
                i <= items.len(),
                children@.len() == i,
                json.items_at("children"@) == Some(items@),
                forall|k: int| 0 <= k < i ==> T::accepts(#[trigger] items@[k]),
                forall|k: int| 0 <= k < i ==> T::represents(#[trigger] items@[k], children@[k]),
            decreases items.len() - i,
        {
            match T::decode(&items[i]) {
                Some(child) => {
                    children.push(child);
                },
                None => {
                    assert(json.items_at("children"@)->0 == items@);
                    return None;
                },
            }
            i += 1;
        }
        listing_around(json, children)
    }
}

/// A list is read from a JSON array, element by element.
impl<T: Payload> Payload for Vec<T> {
    open spec fn accepts(json: Json) -> bool {
        json.spec_items() matches Some(items) && forall|i: int|
            0 <= i < items.len() ==> T::accepts(#[trigger] items[i])
    }

    open spec fn represents(json: Json, value: Vec<T>) -> bool {
        json.spec_items() matches Some(items) && value@.len() == items.len() && forall|i: int|
            0 <= i < items.len() ==> T::represents(#[trigger] items[i], value@[i])
    }

    fn decode(json: &Json) -> (r: Option<Vec<T>>) {
        let items = match json.as_items() {
            Some(items) => items,
            None => {
                return None;
            },
        };
        let mut values: Vec<T> = Vec::new();
        let mut i: usize = 0;
        while i < items.len()
            invariant
                i <= items.len(),
                values@.len() == i,
                json.spec_items() == Some(items@),
                forall|k: int| 0 <= k < i ==> T::accepts(#[trigger] items@[k]),
                forall|k: int| 0 <= k < i ==> T::represents(#[trigger] items@[k], values@[k]),
            decreases items.len() - i,
        {
            match T::decode(&items[i]) {
                Some(value) => {
                    values.push(value);
                },
                None => {
                    assert(!T::accepts(items@[i as int]));
                    assert(json.spec_items()->0 == items@);
                    return None;
                },
            }
            i += 1;
        }
        Some(values)
    }
}

/// The length and the first two characters of a name: names of different
/// stamps are different names.
pub open spec fn stamp(name: Seq<char>) -> (nat, char, char) {
    (name.len(), name[0], name[1])
}

/// The stamps of the member names that the models are written with: no two
/// of them are the same, so no two of the names are.
pub proof fn lemma_member_names()
    ensures
        stamp("link_id"@) == (7nat, 'l', 'i'),
        stamp("author_flair_template_id"@) == (24nat, 'a', 'u'),
        stamp("id"@) == (2nat, 'i', 'd'),
        stamp("author"@) == (6nat, 'a', 'u'),
        stamp("parent_id"@) == (9nat, 'p', 'a'),
        stamp("author_fullname"@) == (15nat, 'a', 'u'),
        stamp("approved_by"@) == (11nat, 'a', 'p'),
        stamp("body"@) == (4nat, 'b', 'o'),
        stamp("name"@) == (4nat, 'n', 'a'),
        stamp("body_html"@) == (9nat, 'b', 'o'),
        stamp("subreddit"@) == (9nat, 's', 'u'),
        stamp("author_flair_text_color"@) == (23nat, 'a', 'u'),
        stamp("permalink"@) == (9nat, 'p', 'e'),
        stamp("subreddit_name_prefixed"@) == (23nat, 's', 'u'),
        stamp("author_flair_text"@) == (17nat, 'a', 'u'),
        stamp("subreddit_type"@) == (14nat, 's', 'u'),
        stamp("saved"@) == (5nat, 's', 'a'),
        stamp("archived"@) == (8nat, 'a', 'r'),
        stamp("no_follow"@) == (9nat, 'n', 'o'),
        stamp("can_mod_post"@) == (12nat, 'c', 'a'),
        stamp("send_replies"@) == (12nat, 's', 'e'),
        stamp("author_patreon_flair"@) == (20nat, 'a', 'u'),
        stamp("is_submitter"@) == (12nat, 'i', 's'),
        stamp("edited"@) == (6nat, 'e', 'd'),
        stamp("stickied"@) == (8nat, 's', 't'),
        stamp("author_premium"@) == (14nat, 'a', 'u'),
        stamp("can_gild"@) == (8nat, 'c', 'a'),
        stamp("score_hidden"@) == (12nat, 's', 'c'),
        stamp("collapsed"@) == (9nat, 'c', 'o'),
        stamp("locked"@) == (6nat, 'l', 'o'),
        stamp("total_awards_received"@) == (21nat, 't', 'o'),
        stamp("gilded"@) == (6nat, 'g', 'i'),
        stamp("score"@) == (5nat, 's', 'c'),
        stamp("downs"@) == (5nat, 'd', 'o'),
        stamp("controversiality"@) == (16nat, 'c', 'o'),
        stamp("ups"@) == (3nat, 'u', 'p'),
        stamp("likes"@) == (5nat, 'l', 'i'),
        stamp("over_18"@) == (7nat, 'o', 'v'),
        stamp("quarantine"@) == (10nat, 'q', 'u'),
        stamp("subreddit_id"@) == (12nat, 's', 'u'),
        stamp("link_title"@) == (10nat, 'l', 'i'),
        stamp("distinguished"@) == (13nat, 'd', 'i'),
        stamp("link_permalink"@) == (14nat, 'l', 'i'),
        stamp("link_author"@) == (11nat, 'l', 'i'),
        stamp("link_url"@) == (8nat, 'l', 'i'),
        stamp("num_reports"@) == (11nat, 'n', 'u'),
        stamp("num_comments"@) == (12nat, 'n', 'u'),
        stamp("depth"@) == (5nat, 'd', 'e'),
        stamp("replies"@) == (7nat, 'r', 'e'),
        stamp("title"@) == (5nat, 't', 'i'),
        stamp("url"@) == (3nat, 'u', 'r'),
        stamp("kind"@) == (4nat, 'k', 'i'),
        stamp("data"@) == (4nat, 'd', 'a'),
        stamp("modhash"@) == (7nat, 'm', 'o'),
        stamp("dist"@) == (4nat, 'd', 'i'),
        stamp("after"@) == (5nat, 'a', 'f'),
        stamp("before"@) == (6nat, 'b', 'e'),
        stamp("children"@) == (8nat, 'c', 'h'),
{
    reveal_strlit("link_id");
    reveal_strlit("author_flair_template_id");
    reveal_strlit("id");
    reveal_strlit("author");
    reveal_strlit("parent_id");
    reveal_strlit("author_fullname");
    reveal_strlit("approved_by");
    reveal_strlit("body");
    reveal_strlit("name");
    reveal_strlit("body_html");
    reveal_strlit("subreddit");
    reveal_strlit("author_flair_text_color");
    reveal_strlit("permalink");
    reveal_strlit("subreddit_name_prefixed");
    reveal_strlit("author_flair_text");
    reveal_strlit("subreddit_type");
    reveal_strlit("saved");
    reveal_strlit("archived");
    reveal_strlit("no_follow");
    reveal_strlit("can_mod_post");
    reveal_strlit("send_replies");
    reveal_strlit("author_patreon_flair");
    reveal_strlit("is_submitter");
    reveal_strlit("edited");
    reveal_strlit("stickied");
    reveal_strlit("author_premium");
    reveal_strlit("can_gild");
    reveal_strlit("score_hidden");
    reveal_strlit("collapsed");
    reveal_strlit("locked");
    reveal_strlit("total_awards_received");
    reveal_strlit("gilded");
    reveal_strlit("score");
    reveal_strlit("downs");
    reveal_strlit("controversiality");
    reveal_strlit("ups");
    reveal_strlit("likes");
    reveal_strlit("over_18");
    reveal_strlit("quarantine");
    reveal_strlit("subreddit_id");
    reveal_strlit("link_title");
    reveal_strlit("distinguished");
    reveal_strlit("link_permalink");
    reveal_strlit("link_author");
    reveal_strlit("link_url");
    reveal_strlit("num_reports");
    reveal_strlit("num_comments");
    reveal_strlit("depth");
    reveal_strlit("replies");
    reveal_strlit("title");
    reveal_strlit("url");
    reveal_strlit("kind");
    reveal_strlit("data");
    reveal_strlit("modhash");
    reveal_strlit("dist");
    reveal_strlit("after");
    reveal_strlit("before");
    reveal_strlit("children");
}

/// Reads a value from the text of a response's body. The text must hold a
/// JSON document, and the document must have the shape of the type: else the
/// result is a `Parse` error.
pub fn read<T: Payload>(body: &str) -> (r: Result<T, RouxError>)
    ensures
        match document(body@) {
            Some(json) => if T::accepts(json) {
                r matches Ok(value) && T::represents(json, value)
            } else {
                r matches Err(RouxError::Parse(_))
            },
            None => r matches Err(RouxError::Parse(_)),
        },
{
    let json = match parse(body) {
        Ok(json) => json,
        Err(error) => {
            return Err(error);
        },
    };
    match T::decode(&json) {
        Some(value) => Ok(value),
        None => Err(RouxError::Parse(shape_error("data did not match the expected shape"))),
    }
}

} // verus!
