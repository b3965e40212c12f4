//! # Me
//! What a logged-in user can ask for and do.

use vstd::prelude::*;
use vstd::string::*;
use crate::client::{
    four_params, no_params, one_param, params_view, push_param, two_params, Client, Method, Param,
    Request, RequestView, Response,
};
use crate::config::Config;
use crate::util::error::RouxError;
use crate::util::option::FeedOption;
use crate::util::url::{build_oauth, oauth_url};

verus! {

/// A `Get` request for `path` on the OAuth host.
pub open spec fn oauth_get(client: Seq<(Seq<char>, Seq<char>)>, path: Seq<char>) -> RequestView {
    RequestView {
        method: Method::Get,
        url: oauth_url(path),
        headers: client,
        basic_auth: None,
        form: Seq::empty(),
    }
}

/// A `Post` request for `path` on the OAuth host with the given form.
pub open spec fn oauth_post(
    client: Seq<(Seq<char>, Seq<char>)>,
    path: Seq<char>,
    form: Seq<(Seq<char>, Seq<char>)>,
) -> RequestView {
    RequestView {
        method: Method::Post,
        url: oauth_url(path),
        headers: client,
        basic_auth: None,
        form: form,
    }
}

/// The query string of the options, or nothing where there are none.
pub open spec fn query_of(options: Option<FeedOption>) -> Seq<char> {
    match options {
        Some(options) => options@.query(),
        None => Seq::<char>::empty(),
    }
}

/// The path of one of a user's feeds, with the query string of the options.
pub open spec fn user_feed_path(user: Seq<char>, feed: Seq<char>, options: Option<FeedOption>)
    -> Seq<char> {
    "user/"@ + user + "/"@ + feed + "/.json"@ + query_of(options)
}

/// The request that revokes the token of a configuration.
pub open spec fn revoke_request_of(
    config: crate::config::ConfigView,
    client: Seq<(Seq<char>, Seq<char>)>,
) -> RequestView {
    RequestView {
        method: Method::Post,
        url: "https://www.reddit.com/api/v1/revoke_token"@,
        headers: client,
        basic_auth: Some((config.client_id, config.client_secret)),
        form: match config.access_token {
            Some(token) => seq![("access_token"@, token)],
            None => Seq::empty(),
        },
    }
}

/// Me
#[derive(Debug)]
pub struct Me {
    /// Config
    pub config: Config,
    /// Client
    pub client: Client,
}

impl Me {
    /// Create a new `me`
    pub fn new(config: &Config, client: &Client) -> (me: Me)
        ensures
            me.config@ == config@,
            me.client@ == client@,
    {
        Me { config: config.clone(), client: client.clone() }
    }

    /// A `Get` request for `url` on the OAuth host.
    pub fn get(&self, url: &str) -> (request: Request)
        ensures
            request@ == oauth_get(self.client@, url@),
    {
        let get_url = build_oauth(url);
        self.client.get(get_url.as_str())
    }

    /// A `Post` request for `url` on the OAuth host with the given form.
    pub fn post(&self, url: &str, form: Vec<Param>) -> (request: Request)
        ensures
            request@ == oauth_post(self.client@, url@, params_view(form@)),
    {
        let post_url = build_oauth(url);
        self.client.post(post_url.as_str()).form(form)
    }

    /// Get me
    pub fn me(&self) -> (request: Request)
        ensures
            request@ == oauth_get(self.client@, "api/v1/me"@),
    {
        self.get("api/v1/me")
    }

    /// Submit link
    pub fn submit_link(&self, title: &str, link: &str, sr: &str) -> (request: Request)
        ensures
            request@ == oauth_post(
                self.client@,
                "api/submit"@,
                seq![("kind"@, "link"@), ("title"@, title@), ("url"@, link@), ("sr"@, sr@)],
            ),
    {
        let form = four_params(("kind", "link"), ("title", title), ("url", link), ("sr", sr));
        self.post("api/submit", form)
    }

    /// Submit text
    pub fn submit_text(&self, title: &str, text: &str, sr: &str) -> (request: Request)
        ensures
            request@ == oauth_post(
                self.client@,
                "api/submit"@,
                seq![("kind"@, "self"@), ("title"@, title@), ("text"@, text@), ("sr"@, sr@)],
            ),
    {
        let form = four_params(("kind", "self"), ("title", title), ("text", text), ("sr", sr));
        self.post("api/submit", form)
    }

    /// Submit richtext
    pub fn submit_richtext(&self, title: &str, richtext: &str, sr: &str) -> (request: Request)
        ensures
            request@ == oauth_post(
                self.client@,
                "api/submit"@,
                seq![
                    ("kind"@, "self"@),
                    ("title"@, title@),
                    ("richtext_json"@, richtext@),
                    ("sr"@, sr@),
                ],
            ),
    {
        let form = four_params(("kind", "self"), ("title", title), ("richtext_json", richtext), ("sr", sr));
        self.post("api/submit", form)
    }

    /// Adds a friend to a subreddit with the specified type
    pub fn add_subreddit_friend(&self, username: &str, typ: &str, sub: &str) -> (request: Request)
        ensures
            request@ == oauth_post(
                self.client@,
                "r/"@ + sub@ + "/api/friend"@,
                seq![("name"@, username@), ("type"@, typ@)],
            ),
    {
        let mut path = String::from_str("r/");
        path.append(sub);
        path.append("/api/friend");
        let form = two_params(("name", username), ("type", typ));
        self.post(path.as_str(), form)
    }

    /// Removes a friend to a subreddit with the specified type
    pub fn remove_subreddit_friend(&self, username: &str, typ: &str, sub: &str) -> (request:
        Request)
        ensures
            request@ == oauth_post(
                self.client@,
                "r/"@ + sub@ + "/api/unfriend"@,
                seq![("name"@, username@), ("type"@, typ@)],
            ),
    {
        let mut path = String::from_str("r/");
        path.append(sub);
        path.append("/api/unfriend");
        let form = two_params(("name", username), ("type", typ));
        self.post(path.as_str(), form)
    }

    /// Compose message
    pub fn compose_message(&self, username: &str, subject: &str, body: &str) -> (request: Request)
        ensures
            request@ == oauth_post(
                self.client@,
                "api/compose"@,
                seq![
                    ("api_type"@, "json"@),
                    ("subject"@, subject@),
                    ("text"@, body@),
                    ("to"@, username@),
                ],
            ),
    {
        let form = four_params(("api_type", "json"), ("subject", subject), ("text", body), ("to", username));
        self.post("api/compose", form)
    }

    /// Get user's inbox.
    pub fn inbox(&self) -> (request: Request)
        ensures
            request@ == oauth_get(self.client@, "message/inbox"@),
    {
        self.get("message/inbox")
    }

    /// The request for one of the user's own feeds.
    fn own_feed(&self, feed: &str, options: Option<FeedOption>) -> (request: Request)
        requires
            self.config@.username is Some,
        ensures
            request@ == oauth_get(
                self.client@,
                user_feed_path(self.config@.username->0, feed@, options),
            ),
    {
        let mut url = String::from_str("user/");
        if let Some(username) = &self.config.username {
            url.append(username.as_str());
        }
        url.append("/");
        url.append(feed);
        url.append("/.json");
        if let Some(options) = options {
            options.build_url(&mut url);
        }
        self.get(url.as_str())
    }

    /// Get saved
    pub fn saved(&self, options: Option<FeedOption>) -> (request: Request)
        requires
            self.config@.username is Some,
        ensures
            request@ == oauth_get(
                self.client@,
                user_feed_path(self.config@.username->0, "saved"@, options),
            ),
    {
        self.own_feed("saved", options)
    }

    /// Get upvoted
    pub fn upvoted(&self, options: Option<FeedOption>) -> (request: Request)
        requires
            self.config@.username is Some,
        ensures
            request@ == oauth_get(
                self.client@,
                user_feed_path(self.config@.username->0, "upvoted"@, options),
            ),
    {
        self.own_feed("upvoted", options)
    }

    /// Get downvoted
    pub fn downvoted(&self, options: Option<FeedOption>) -> (request: Request)
        requires
            self.config@.username is Some,
        ensures
            request@ == oauth_get(
                self.client@,
                user_feed_path(self.config@.username->0, "downvoted"@, options),
            ),
    {
        self.own_feed("downvoted", options)
    }

    /// Get users unread messages
    pub fn unread(&self) -> (request: Request)
        ensures
            request@ == oauth_get(self.client@, "message/unread"@),
    {
        self.get("message/unread")
    }

    /// Mark messages as read
    pub fn mark_read(&self, ids: &str) -> (request: Request)
        ensures
            request@ == oauth_post(self.client@, "api/read_message"@, seq![("id"@, ids@)]),
    {
        let form = one_param("id", ids);
        self.post("api/read_message", form)
    }

    /// Mark messages as unread
    pub fn mark_unread(&self, ids: &str) -> (request: Request)
        ensures
            request@ == oauth_post(self.client@, "api/unread_message"@, seq![("id"@, ids@)]),
    {
        let form = one_param("id", ids);
        self.post("api/unread_message", form)
    }

    /// Comment
    pub fn comment(&self, text: &str, parent: &str) -> (request: Request)
        ensures
            request@ == oauth_post(
                self.client@,
                "api/comment"@,
                seq![("text"@, text@), ("parent"@, parent@)],
            ),
    {
        let form = two_params(("text", text), ("parent", parent));
        self.post("api/comment", form)
    }

    /// Edit a 'thing'
    pub fn edit(&self, text: &str, parent: &str) -> (request: Request)
        ensures
            request@ == oauth_post(
                self.client@,
                "api/editusertext"@,
                seq![("text"@, text@), ("thing_id"@, parent@)],
            ),
    {
        let form = two_params(("text", text), ("thing_id", parent));
        self.post("api/editusertext", form)
    }

    /// Get submissions by id
    /// `ids`: the fullnames of submisions to get, comma separated
    pub fn get_submissions(&self, ids: &str) -> (request: Request)
        ensures
            request@ == oauth_get(self.client@, "/by_id/"@ + ids@),
    {
        let mut url = String::from_str("/by_id/");
        url.append(ids);
        self.get(url.as_str())
    }

    /// The request that revokes the session's token.
    pub fn logout_request(&self) -> (request: Request)
        ensures
            request@ == revoke_request_of(self.config@, self.client@),
    {
        let mut form = no_params();
        if let Some(token) = &self.config.access_token {
            push_param(&mut form, "access_token", token.as_str());
        }
        self.client.post("https://www.reddit.com/api/v1/revoke_token").basic_auth(
            self.config.client_id.as_str(),
            self.config.client_secret.as_str(),
        ).form(form)
    }

    /// Logout: ends the session with the revoke endpoint's response. Status
    /// 204 is success; any other status is a `Status` error that holds the
    /// response.
    pub fn logout(self, response: Response) -> (r: Result<(), RouxError>)
        ensures
            response.status == 204 ==> r is Ok,
            response.status != 204 ==> (r matches Err(RouxError::Status(kept)) && kept@
                == response@),
    {
        if response.status == 204 {
            Ok(())
        } else {
            Err(RouxError::Status(response))
        }
    }
}

impl Clone for Me {
    fn clone(&self) -> (me: Me)
        ensures
            me.config@ == self.config@,
            me.client@ == self.client@,
    {
        Me { config: self.config.clone(), client: self.client.clone() }
    }
}

} // verus!
