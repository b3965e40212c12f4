//! # Link flairs
//! The flairs that the posts of a subreddit can carry.

use vstd::prelude::*;
use crate::json::Json;
use crate::models::response::Payload;
use crate::util::option::text_of;

verus! {

/// One piece of the rich text of a flair.
#[derive(Debug)]
pub struct FlairRichText {
    /// The name of an emoji, between colons
    pub a: Option<String>,
    /// What the piece is: `text` or `emoji`
    pub e: Option<String>,
    /// The address of an emoji's picture
    pub u: Option<String>,
    /// The text of a piece of text
    pub t: Option<String>,
}

impl Payload for FlairRichText {
    open spec fn accepts(json: Json) -> bool {
        &&& json.optional_text_ok("a"@)
        &&& json.optional_text_ok("e"@)
        &&& json.optional_text_ok("u"@)
        &&& json.optional_text_ok("t"@)
    }

    open spec fn represents(json: Json, value: FlairRichText) -> bool {
        &&& json.text_at("a"@) == text_of(value.a)
        &&& json.text_at("e"@) == text_of(value.e)
        &&& json.text_at("u"@) == text_of(value.u)
        &&& json.text_at("t"@) == text_of(value.t)
    }

    fn decode(json: &Json) -> (r: Option<FlairRichText>) {
        let a = match json.optional_text_member("a") {
            Some(a) => a,
            None => {
                return None;
            },
        };
        let e = match json.optional_text_member("e") {
            Some(e) => e,
            None => {
                return None;
            },
        };
        let u = match json.optional_text_member("u") {
            Some(u) => u,
            None => {
                return None;
            },
        };
        match json.optional_text_member("t") {
            Some(t) => Some(FlairRichText { a, e, u, t }),
            None => None,
        }
    }
}

/// All infos about a link flair.
#[derive(Debug)]
pub struct LinkFlairData {
    /// The member `type`
    pub type_field: String,
    /// Whether the text can be edited
    pub text_editable: bool,
    /// What the flair may hold
    pub allowable_content: String,
    /// Text
    pub text: String,
    /// How many emojis the flair may hold
    pub max_emojis: i64,
    /// The colour of the text
    pub text_color: String,
    /// Whether only moderators can set the flair
    pub mod_only: bool,
    /// The class of the style sheet
    pub css_class: String,
    /// The text in pieces
    pub richtext: Vec<FlairRichText>,
    /// The colour behind the text
    pub background_color: String,
    /// ID
    pub id: String,
}

/// The texts of a link flair are there.
pub open spec fn flair_texts_ok(json: Json) -> bool {
    &&& json.text_at("type"@) is Some
    &&& json.text_at("allowable_content"@) is Some
    &&& json.text_at("text"@) is Some
    &&& json.text_at("text_color"@) is Some
    &&& json.text_at("css_class"@) is Some
    &&& json.text_at("background_color"@) is Some
    &&& json.text_at("id"@) is Some
}

/// The texts of `flair` are those of the JSON value.
pub open spec fn flair_texts_are(json: Json, flair: LinkFlairData) -> bool {
    &&& json.text_at("type"@) == Some(flair.type_field@)
    &&& json.text_at("allowable_content"@) == Some(flair.allowable_content@)
    &&& json.text_at("text"@) == Some(flair.text@)
    &&& json.text_at("text_color"@) == Some(flair.text_color@)
    &&& json.text_at("css_class"@) == Some(flair.css_class@)
    &&& json.text_at("background_color"@) == Some(flair.background_color@)
    &&& json.text_at("id"@) == Some(flair.id@)
}

impl Payload for LinkFlairData {
    open spec fn accepts(json: Json) -> bool {
        &&& flair_texts_ok(json)
        &&& json.flag_at("text_editable"@) is Some
        &&& json.flag_at("mod_only"@) is Some
        &&& json.int_at("max_emojis"@) is Some
        &&& json.spec_member("richtext"@) matches Some(pieces) && Vec::<FlairRichText>::accepts(
            pieces,
        )
    }

    open spec fn represents(json: Json, value: LinkFlairData) -> bool {
        &&& flair_texts_are(json, value)
        &&& json.flag_at("text_editable"@) == Some(value.text_editable)
        &&& json.flag_at("mod_only"@) == Some(value.mod_only)
        &&& json.int_at("max_emojis"@) == Some(value.max_emojis)
        &&& json.spec_member("richtext"@) matches Some(pieces)
            && Vec::<FlairRichText>::represents(pieces, value.richtext)
    }

    fn decode(json: &Json) -> (r: Option<LinkFlairData>) {
        let type_field = match json.text_member("type") {
            Some(text) => text,
            None => {
                return None;
            },
        };
        let allowable_content = match json.text_member("allowable_content") {
            Some(text) => text,
            None => {
                return None;
            },
        };
        let text = match json.text_member("text") {
            Some(text) => text,
            None => {
                return None;
            },
        };
        let text_color = match json.text_member("text_color") {
            Some(text) => text,
            None => {
                return None;
            },
        };
        let css_class = match json.text_member("css_class") {
            Some(text) => text,
            None => {
                return None;
            },
        };
        let background_color = match json.text_member("background_color") {
            Some(text) => text,
            None => {
                return None;
            },
        };
        let id = match json.text_member("id") {
            Some(text) => text,
            None => {
                return None;
            },
        };
        let text_editable = match json.flag_member("text_editable") {
            Some(flag) => flag,
            None => {
                return None;
            },
        };
        let mod_only = match json.flag_member("mod_only") {
            Some(flag) => flag,
            None => {
                return None;
            },
        };
        let max_emojis = match json.int_member("max_emojis") {
            Some(number) => number,
            None => {
                return None;
            },
        };
        let pieces = match json.member("richtext") {
            Some(pieces) => pieces,
            None => {
                return None;
            },
        };
        match Vec::<FlairRichText>::decode(pieces) {
            Some(richtext) => Some(
                LinkFlairData {
                    type_field,
                    text_editable,
                    allowable_content,
                    text,
                    max_emojis,
                    text_color,
                    mod_only,
                    css_class,
                    richtext,
                    background_color,
                    id,
                },
            ),
            None => None,
        }
    }
}

} // verus!
