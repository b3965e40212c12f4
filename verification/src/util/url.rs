//! URL building for the two hosts of the API.

use vstd::prelude::*;
use vstd::string::*;

verus! {

/// The address of `dest` on the read-only host.
pub open spec fn read_only_url(dest: Seq<char>) -> Seq<char> {
    "https://www.reddit.com/"@ + dest + "/.json"@
}

/// The address of `dest` on the host that takes a bearer token.
pub open spec fn oauth_url(dest: Seq<char>) -> Seq<char> {
    "https://oauth.reddit.com/"@ + dest + "/.json"@
}

/// Builds a url for read only Reddit access.
pub fn build_url(dest: &str) -> (url: String)
    ensures
        url@ == read_only_url(dest@),
{
    let mut url = String::from_str("https://www.reddit.com/");
    url.append(dest);
    url.append("/.json");
    url
}

/// Builds a url for OAuth Reddit access.
pub fn build_oauth(dest: &str) -> (url: String)
    ensures
        url@ == oauth_url(dest@),
{
    let mut url = String::from_str("https://oauth.reddit.com/");
    url.append(dest);
    url.append("/.json");
    url
}

} // verus!
