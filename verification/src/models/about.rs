//! # About
//! What a user's about page holds.

use vstd::prelude::*;
use crate::json::Json;
use crate::models::response::{BasicThing, Payload};

verus! {

/// The pictures of a user.
#[derive(Debug)]
pub struct AboutData {
    /// The address of the user's avatar.
    pub snoovatar_img: String,
    /// The address of the user's icon.
    pub icon_img: String,
}

/// A user's about page.
pub type About = BasicThing<AboutData>;

impl Payload for AboutData {
    open spec fn accepts(json: Json) -> bool {
        json.text_at("snoovatar_img"@) is Some && json.text_at("icon_img"@) is Some
    }

    open spec fn represents(json: Json, value: AboutData) -> bool {
        &&& json.text_at("snoovatar_img"@) == Some(value.snoovatar_img@)
        &&& json.text_at("icon_img"@) == Some(value.icon_img@)
    }

    fn decode(json: &Json) -> (r: Option<AboutData>) {
        let snoovatar_img = match json.text_member("snoovatar_img") {
            Some(text) => text,
            None => {
                return None;
            },
        };
        match json.text_member("icon_img") {
            Some(icon_img) => Some(AboutData { snoovatar_img, icon_img }),
            None => None,
        }
    }
}

} // verus!
