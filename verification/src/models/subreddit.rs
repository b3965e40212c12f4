//! # Subreddit
//! A read-only module to read data from a specific subreddit.

use vstd::prelude::*;
use vstd::string::*;
use crate::client::{plain_get, Client, Request};
use crate::json::{document, parse, shape_error, Json};
use crate::models::comment::Comments;
use crate::models::me::query_of;
use crate::models::response::Payload;
use crate::util::defaults::{default_client, default_header_list};
use crate::util::error::RouxError;
use crate::util::option::{decimal, push_decimal, FeedOption};
use crate::util::text::{contains, occurs_in};

verus! {

/// `&`, the name, `=` and the numeral, where the number is given.
pub open spec fn number_part(name: Seq<char>, number: Option<u32>) -> Seq<char> {
    match number {
        Some(n) => "&"@ + name + "="@ + decimal(n as nat),
        None => Seq::<char>::empty(),
    }
}

/// Appends `&`, the name, `=` and the numeral, where the number is given.
pub fn push_number_part(url: &mut String, name: &str, number: Option<u32>)
    ensures
        final(url)@ == old(url)@ + number_part(name@, number),
{
    if let Some(n) = number {
        url.append("&");
        url.append(name);
        url.append("=");
        push_decimal(url, n);
    }
}

/// The address that searches the subreddits for `name`.
pub open spec fn search_url(name: Seq<char>, limit: Option<u32>, options: Option<FeedOption>)
    -> Seq<char> {
    "https://www.reddit.com/subreddits/search.json?q="@ + name + number_part("limit"@, limit)
        + query_of(options)
}

/// Access subreddits API
pub struct Subreddits;

impl Subreddits {
    /// Search subreddits
    pub fn search(name: &str, limit: Option<u32>, options: Option<FeedOption>) -> (request:
        Request)
        ensures
            request@ == plain_get(default_header_list(), search_url(name@, limit, options)),
    {
        let mut url = String::from_str("https://www.reddit.com/subreddits/search.json?q=");
        url.append(name);
        push_number_part(&mut url, "limit", limit);
        if let Some(options) = options {
            options.build_url(&mut url);
        }
        let client = default_client();
        client.get(url.as_str())
    }
}

/// Subreddit
#[derive(Debug)]
pub struct Subreddit {
    /// Name of subreddit.
    pub name: String,
    /// The address of the subreddit on the host that the client talks to.
    pub url: String,
    /// The client that prepares the requests.
    pub client: Client,
    /// Whether the client carries a session.
    pub is_oauth: bool,
}

/// What a `Subreddit` holds, as mathematical values.
pub struct SubredditView {
    pub name: Seq<char>,
    pub url: Seq<char>,
    pub client: Seq<(Seq<char>, Seq<char>)>,
    pub is_oauth: bool,
}

impl View for Subreddit {
    type V = SubredditView;

    open spec fn view(&self) -> SubredditView {
        SubredditView {
            name: self.name@,
            url: self.url@,
            client: self.client@,
            is_oauth: self.is_oauth,
        }
    }
}

/// The subreddit `name` as a client without a session sees it.
pub open spec fn plain_subreddit(name: Seq<char>) -> SubredditView {
    SubredditView {
        name: name,
        url: "https://www.reddit.com/r/"@ + name,
        client: default_header_list(),
        is_oauth: false,
    }
}

/// The subreddit `name` as a client with a session sees it.
pub open spec fn oauth_subreddit(name: Seq<char>, client: Seq<(Seq<char>, Seq<char>)>)
    -> SubredditView {
    SubredditView {
        name: name,
        url: "https://oauth.reddit.com/r/"@ + name,
        client: client,
        is_oauth: true,
    }
}

/// The address of a feed of posts.
pub open spec fn feed_url(base: Seq<char>, ty: Seq<char>, limit: u32, options: Option<FeedOption>)
    -> Seq<char> {
    base + "/"@ + ty + ".json?limit="@ + decimal(limit as nat) + query_of(options)
}

/// The address of a feed of comments.
pub open spec fn comment_feed_url(
    base: Seq<char>,
    ty: Seq<char>,
    depth: Option<u32>,
    limit: Option<u32>,
) -> Seq<char> {
    base + "/"@ + ty + ".json?"@ + number_part("depth"@, depth) + number_part("limit"@, limit)
}

/// Whether the feed at `url` answers with a sequence of listings in place of
/// one listing: the feeds of the comments on an article do.
pub open spec fn answers_in_sequence(url: Seq<char>) -> bool {
    occurs_in("comments/"@, url)
}

/// The listing in the answer of a comment feed: the answer itself, or, where
/// the feed answers with a sequence, the last element of the sequence.
pub open spec fn feed_listing(json: Json, in_sequence: bool) -> Option<Json> {
    if in_sequence {
        match json.spec_items() {
            Some(items) => if items.len() > 0 {
                Some(items.last())
            } else {
                None
            },
            None => None,
        }
    } else {
        Some(json)
    }
}

/// The listing in the answer of a comment feed.
pub fn unwrap_feed(json: &Json, in_sequence: bool) -> (r: Option<&Json>)
    ensures
        r is Some <==> feed_listing(*json, in_sequence) is Some,
        r matches Some(listing) ==> feed_listing(*json, in_sequence) == Some(*listing),
{
    if in_sequence {
        match json.as_items() {
            Some(items) => if items.len() > 0 {
                Some(&items[items.len() - 1])
            } else {
                None
            },
            None => None,
        }
    } else {
        Some(json)
    }
}

/// Reads the comments in the answer of a comment feed: `Some` exactly where
/// the answer holds a listing, as `feed_listing` says, of the shape of a
/// page of comments.
pub fn decode_comment_feed(json: &Json, in_sequence: bool) -> (r: Option<Comments>)
    ensures
        match feed_listing(*json, in_sequence) {
            Some(listing) => (r is Some <==> Comments::accepts(listing)) && (r matches Some(
                comments,
            ) ==> Comments::represents(listing, comments)),
            None => r is None,
        },
{
    match unwrap_feed(json, in_sequence) {
        Some(listing) => Comments::decode(listing),
        None => None,
    }
}

impl Subreddit {
    /// Create a new `Subreddit` instance.
    pub fn new(name: &str) -> (subreddit: Subreddit)
        ensures
            subreddit@ == plain_subreddit(name@),
    {
        let mut url = String::from_str("https://www.reddit.com/r/");
        url.append(name);
        Subreddit { name: name.to_owned(), url, client: default_client(), is_oauth: false }
    }

    /// Create a new authenticated `Subreddit` instance using an oauth client
    /// from the `Reddit` module.
    pub fn new_oauth(name: &str, client: &Client) -> (subreddit: Subreddit)
        ensures
            subreddit@ == oauth_subreddit(name@, client@),
    {
        let mut url = String::from_str("https://oauth.reddit.com/r/");
        url.append(name);
        Subreddit { name: name.to_owned(), url, client: client.clone(), is_oauth: true }
    }

    /// A `Get` request for the subreddit's address with `tail` behind it.
    fn get_under(&self, tail: &str) -> (request: Request)
        ensures
            request@ == plain_get(self@.client, self@.url + tail@),
    {
        let mut url = self.url.clone();
        url.append(tail);
        self.client.get(url.as_str())
    }

    /// Get moderators (requires authentication)
    pub fn moderators(&self) -> (r: Result<Request, RouxError>)
        ensures
            self.is_oauth ==> (r matches Ok(request) && request@ == plain_get(
                self@.client,
                self@.url + "/about/moderators/.json"@,
            )),
            !self.is_oauth ==> r matches Err(RouxError::OAuthClientRequired),
    {
        if self.is_oauth {
            Ok(self.get_under("/about/moderators/.json"))
        } else {
            Err(RouxError::OAuthClientRequired)
        }
    }

    /// Get subreddit data.
    pub fn about(&self) -> (request: Request)
        ensures
            request@ == plain_get(self@.client, self@.url + "/about/.json"@),
    {
        self.get_under("/about/.json")
    }

    /// The request for a feed of posts.
    pub fn get_feed(&self, ty: &str, limit: u32, options: Option<FeedOption>) -> (request:
        Request)
        ensures
            request@ == plain_get(self@.client, feed_url(self@.url, ty@, limit, options)),
    {
        let mut url = self.url.clone();
        url.append("/");
        url.append(ty);
        url.append(".json?limit=");
        push_decimal(&mut url, limit);
        if let Some(options) = options {
            options.build_url(&mut url);
        }
        self.client.get(url.as_str())
    }

    /// The request for a feed of comments.
    pub fn get_comment_feed(&self, ty: &str, depth: Option<u32>, limit: Option<u32>) -> (request:
        Request)
        ensures
            request@ == plain_get(self@.client, comment_feed_url(self@.url, ty@, depth, limit)),
    {
        let mut url = self.url.clone();
        url.append("/");
        url.append(ty);
        url.append(".json?");
        push_number_part(&mut url, "depth", depth);
        push_number_part(&mut url, "limit", limit);
        self.client.get(url.as_str())
    }

    /// Reads the answer of the comment feed at `url`. The body must hold a
    /// JSON document. Where the address holds `comments/`, the document is a
    /// sequence and the page of comments is its last element; elsewhere the
    /// document is the page itself. Anything else is a `Parse` error.
    pub fn read_comment_feed(url: &str, body: &str) -> (r: Result<Comments, RouxError>)
        ensures
            match document(body@) {
                Some(json) => match feed_listing(json, answers_in_sequence(url@)) {
                    Some(listing) => if Comments::accepts(listing) {
                        r matches Ok(comments) && Comments::represents(listing, comments)
                    } else {
                        r matches Err(RouxError::Parse(_))
                    },
                    None => r matches Err(RouxError::Parse(_)),
                },
                None => r matches Err(RouxError::Parse(_)),
            },
    {
        let in_sequence = contains(url, "comments/");
        let json = match parse(body) {
            Ok(json) => json,
            Err(error) => {
                return Err(error);
            },
        };
        match decode_comment_feed(&json, in_sequence) {
            Some(comments) => Ok(comments),
            None => Err(RouxError::Parse(shape_error("data did not match a page of comments"))),
        }
    }

    /// Get hot posts.
    pub fn hot(&self, limit: u32, options: Option<FeedOption>) -> (request: Request)
        ensures
            request@ == plain_get(self@.client, feed_url(self@.url, "hot"@, limit, options)),
    {
        self.get_feed("hot", limit, options)
    }

    /// Get rising posts.
    pub fn rising(&self, limit: u32, options: Option<FeedOption>) -> (request: Request)
        ensures
            request@ == plain_get(self@.client, feed_url(self@.url, "rising"@, limit, options)),
    {
        self.get_feed("rising", limit, options)
    }

    /// Get top posts.
    pub fn top(&self, limit: u32, options: Option<FeedOption>) -> (request: Request)
        ensures
            request@ == plain_get(self@.client, feed_url(self@.url, "top"@, limit, options)),
    {
        self.get_feed("top", limit, options)
    }

    /// Get latest posts.
    pub fn latest(&self, limit: u32, options: Option<FeedOption>) -> (request: Request)
        ensures
            request@ == plain_get(self@.client, feed_url(self@.url, "new"@, limit, options)),
    {
        self.get_feed("new", limit, options)
    }

    /// Get latest comments.
    pub fn latest_comments(&self, depth: Option<u32>, limit: Option<u32>) -> (request: Request)
        ensures
            request@ == plain_get(
                self@.client,
                comment_feed_url(self@.url, "comments"@, depth, limit),
            ),
    {
        self.get_comment_feed("comments", depth, limit)
    }

    /// Get comments from article.
    pub fn article_comments(&self, article: &str, depth: Option<u32>, limit: Option<u32>) -> (request:
        Request)
        ensures
            request@ == plain_get(
                self@.client,
                comment_feed_url(self@.url, "comments/"@ + article@, depth, limit),
            ),
    {
        let mut ty = String::from_str("comments/");
        ty.append(article);
        self.get_comment_feed(ty.as_str(), depth, limit)
    }

    /// Return list of available link flair for the current subreddit.
    pub fn link_flairs(&self) -> (request: Request)
        ensures
            request@ == plain_get(self@.client, self@.url + "/api/link_flair_v2.json"@),
    {
        self.get_under("/api/link_flair_v2.json")
    }
}

} // verus!
