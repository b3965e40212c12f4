//! Defaults for clients that carry no session.

use vstd::prelude::*;
use crate::client::{params_view, Client, Param};

verus! {

/// The header list that holds the library's own user agent and nothing else.
pub open spec fn default_header_list() -> Seq<(Seq<char>, Seq<char>)> {
    seq![("User-Agent"@, "roux/rust"@)]
}

/// String function for defaults: the empty string.
pub fn default_string() -> (s: String)
    ensures
        s@ == Seq::<char>::empty(),
{
    String::new()
}

/// Default headers must contain user agent
pub fn default_headers() -> (headers: Vec<Param>)
    ensures
        params_view(headers@) == default_header_list(),
{
    let mut headers: Vec<Param> = Vec::new();
    headers.push(Param::new("User-Agent", "roux/rust"));
    headers
}

/// Default client
pub fn default_client() -> (client: Client)
    ensures
        client@ == default_header_list(),
{
    Client::with_headers(default_headers())
}

} // verus!
