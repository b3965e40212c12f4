//! # User
//! A read-only module to read data from for a specific user.

use vstd::prelude::*;
use vstd::string::*;
use crate::client::{plain_get, Client, Request};
use crate::models::me::query_of;
use crate::util::defaults::{default_client, default_header_list};
use crate::util::option::FeedOption;

verus! {

/// The address of one of the pages about a user.
pub open spec fn user_url(user: Seq<char>, page: Seq<char>, options: Option<FeedOption>) -> Seq<
    char,
> {
    "https://www.reddit.com/user/"@ + user + "/"@ + page + "/.json"@ + query_of(options)
}

/// The address of the page after `after` of one of a user's feeds, newest
/// first, a hundred items to the page.
pub open spec fn walk_url(user: Seq<char>, feed: Seq<char>, after: Seq<char>) -> Seq<char> {
    "https://www.reddit.com/user/"@ + user + "/"@ + feed
        + "/.json?sort=new&t=all&limit=100&after="@ + after
}

/// User.
#[derive(Debug)]
pub struct User {
    /// User's name.
    pub user: String,
    /// The client that prepares the requests.
    pub client: Client,
}

impl User {
    /// Create a new `User` instance.
    pub fn new(user: &str) -> (r: User)
        ensures
            r.user@ == user@,
            r.client@ == default_header_list(),
    {
        User { user: user.to_owned(), client: default_client() }
    }

    /// The request for one of the pages about the user.
    fn page(&self, page: &str, options: Option<FeedOption>) -> (request: Request)
        ensures
            request@ == plain_get(self.client@, user_url(self.user@, page@, options)),
    {
        let mut url = String::from_str("https://www.reddit.com/user/");
        url.append(self.user.as_str());
        url.append("/");
        url.append(page);
        url.append("/.json");
        if let Some(options) = options {
            options.build_url(&mut url);
        }
        self.client.get(url.as_str())
    }

    /// Get user's overview.
    pub fn overview(&self, options: Option<FeedOption>) -> (request: Request)
        ensures
            request@ == plain_get(self.client@, user_url(self.user@, "overview"@, options)),
    {
        self.page("overview", options)
    }

    /// Get user's submitted posts.
    pub fn submitted(&self, options: Option<FeedOption>) -> (request: Request)
        ensures
            request@ == plain_get(self.client@, user_url(self.user@, "submitted"@, options)),
    {
        self.page("submitted", options)
    }

    /// Get user's submitted comments.
    pub fn comments(&self, options: Option<FeedOption>) -> (request: Request)
        ensures
            request@ == plain_get(self.client@, user_url(self.user@, "comments"@, options)),
    {
        self.page("comments", options)
    }

    /// Get user's about page
    pub fn about(&self, options: Option<FeedOption>) -> (request: Request)
        ensures
            request@ == plain_get(self.client@, user_url(self.user@, "about"@, options)),
    {
        self.page("about", options)
    }

    /// The request for the page after the cursor `after` of one of the
    /// user's feeds (`overview`, `submitted`, `comments`), for walking the
    /// whole feed; the empty cursor asks for the first page.
    pub fn walk_page(&self, feed: &str, after: &str) -> (request: Request)
        ensures
            request@ == plain_get(self.client@, walk_url(self.user@, feed@, after@)),
    {
        let mut url = String::from_str("https://www.reddit.com/user/");
        url.append(self.user.as_str());
        url.append("/");
        url.append(feed);
        url.append("/.json?sort=new&t=all&limit=100&after=");
        url.append(after);
        self.client.get(url.as_str())
    }
}

} // verus!
