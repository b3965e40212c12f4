//! # Friend
//! The answer to a request that adds or removes a friend.

use vstd::prelude::*;
use crate::json::Json;
use crate::models::response::Payload;

verus! {

/// Whether the request went through.
#[derive(Debug)]
pub struct Friend {
    /// Success
    pub success: bool,
}

impl Payload for Friend {
    open spec fn accepts(json: Json) -> bool {
        json.flag_at("success"@) is Some
    }

    open spec fn represents(json: Json, value: Friend) -> bool {
        json.flag_at("success"@) == Some(value.success)
    }

    fn decode(json: &Json) -> (r: Option<Friend>) {
        match json.flag_member("success") {
            Some(success) => Some(Friend { success }),
            None => None,
        }
    }
}

} // verus!
