//! The start of a session: the password grant that turns client and user
//! credentials into a bearer token.

use vstd::prelude::*;
use vstd::string::*;
use crate::client::{
    no_params, push_param, three_params, Client, Method, Request, RequestView, Response,
};
use crate::config::{Config, ConfigView};
use crate::json::{document, parse, shape_error, Json};
use crate::models::me::Me;
use crate::models::subreddit::{oauth_subreddit, Subreddit};
use crate::util::error::RouxError;

verus! {

/// What the token endpoint answers: a token, or the reason why none is given.
#[derive(Debug)]
pub enum AuthResponse {
    AuthData { access_token: String },
    ErrorData { error: String },
}

/// What an `AuthResponse` holds, as mathematical values.
pub enum AuthView {
    Token(Seq<char>),
    Refused(Seq<char>),
}

impl View for AuthResponse {
    type V = AuthView;

    open spec fn view(&self) -> AuthView {
        match *self {
            AuthResponse::AuthData { access_token } => AuthView::Token(access_token@),
            AuthResponse::ErrorData { error } => AuthView::Refused(error@),
        }
    }
}

/// The answer that a JSON value stands for. The token shape is tried first:
/// a member `access_token` that is a string. The error shape is tried second:
/// a member `error` that is a string. A value of neither shape is no answer.
pub open spec fn auth_of(json: Json) -> Option<AuthView> {
    match json.text_at("access_token"@) {
        Some(token) => Some(AuthView::Token(token)),
        None => match json.text_at("error"@) {
            Some(reason) => Some(AuthView::Refused(reason)),
            None => None,
        },
    }
}

impl AuthResponse {
    /// Reads the answer that a JSON value stands for, the token shape first.
    pub fn from_json(json: &Json) -> (r: Option<AuthResponse>)
        ensures
            r is Some <==> auth_of(*json) is Some,
            r matches Some(auth) ==> auth_of(*json) == Some(auth@),
    {
        match json.text_member("access_token") {
            Some(access_token) => Some(AuthResponse::AuthData { access_token }),
            None => match json.text_member("error") {
                Some(error) => Some(AuthResponse::ErrorData { error }),
                None => None,
            },
        }
    }
}

/// What the token endpoint's response comes to.
pub enum Grant {
    /// The token that was granted.
    Token(Seq<char>),
    /// The reason for which none was granted.
    Refused(Seq<char>),
    /// The body is no JSON document, or one of neither shape.
    Unreadable,
    /// The status is outside 200 to 299.
    Rejected,
}

/// Reads the token endpoint's response. A status outside 200 to 299 is a
/// rejection, whatever the body holds. Otherwise the body is read as a JSON
/// document and the document as an answer, the token shape first.
pub open spec fn grant_of(response: Response) -> Grant {
    if !response.is_success() {
        Grant::Rejected
    } else {
        match document(response.body@) {
            Some(json) => match auth_of(json) {
                Some(AuthView::Token(token)) => Grant::Token(token),
                Some(AuthView::Refused(reason)) => Grant::Refused(reason),
                None => Grant::Unreadable,
            },
            None => Grant::Unreadable,
        }
    }
}

/// The default headers of a session: the bearer token, then the user agent.
pub open spec fn session_headers(token: Seq<char>, user_agent: Seq<char>) -> Seq<
    (Seq<char>, Seq<char>),
> {
    seq![("Authorization"@, "Bearer "@ + token), ("User-Agent"@, user_agent)]
}

/// The password-grant request of a configuration that holds a user name and a
/// password, sent by a client with the given default headers.
pub open spec fn token_request_of(config: ConfigView, client: Seq<(Seq<char>, Seq<char>)>)
    -> RequestView
    recommends
        config.has_credentials(),
{
    RequestView {
        method: Method::Post,
        url: "https://www.reddit.com/api/v1/access_token"@,
        headers: client.push(("User-Agent"@, config.user_agent)),
        basic_auth: Some((config.client_id, config.client_secret)),
        form: seq![
            ("grant_type"@, "password"@),
            ("username"@, config.username->0),
            ("password"@, config.password->0),
        ],
    }
}

/// Client to use OAuth with Reddit.
#[derive(Debug)]
pub struct Reddit {
    pub config: Config,
    pub client: Client,
}

impl Reddit {
    /// Creates a `Reddit` instance with user_agent, client_id, and client_secret.
    pub fn new(user_agent: &str, client_id: &str, client_secret: &str) -> (reddit: Reddit)
        ensures
            reddit.config@ == (ConfigView {
                user_agent: user_agent@,
                client_id: client_id@,
                client_secret: client_secret@,
                username: None,
                password: None,
                access_token: None,
            }),
            reddit.client@ == Seq::<(Seq<char>, Seq<char>)>::empty(),
    {
        Reddit { config: Config::new(user_agent, client_id, client_secret), client: Client::new() }
    }

    /// Sets username.
    pub fn username(self, username: &str) -> (reddit: Reddit)
        ensures
            reddit.config@ == (ConfigView { username: Some(username@), ..self.config@ }),
            reddit.client@ == self.client@,
    {
        let mut reddit = self;
        reddit.config.username = Some(username.to_owned());
        reddit
    }

    /// Sets password.
    pub fn password(self, password: &str) -> (reddit: Reddit)
        ensures
            reddit.config@ == (ConfigView { password: Some(password@), ..self.config@ }),
            reddit.client@ == self.client@,
    {
        let mut reddit = self;
        reddit.config.password = Some(password.to_owned());
        reddit
    }

    /// Whether a user name and a password are both set.
    pub fn has_credentials(&self) -> (yes: bool)
        ensures
            yes == self.config@.has_credentials(),
    {
        self.config.username.is_some() && self.config.password.is_some()
    }

    /// The request that asks the token endpoint for a bearer token by
    /// password grant.
    pub fn token_request(&self) -> (request: Request)
        requires
            self.config@.has_credentials(),
        ensures
            request@ == token_request_of(self.config@, self.client@),
    {
        let form = match (&self.config.username, &self.config.password) {
            (Some(username), Some(password)) => three_params(
                ("grant_type", "password"),
                ("username", username.as_str()),
                ("password", password.as_str()),
            ),
            _ => no_params(),
        };
        self.client.post("https://www.reddit.com/api/v1/access_token").header(
            "User-Agent",
            self.config.user_agent.as_str(),
        ).basic_auth(self.config.client_id.as_str(), self.config.client_secret.as_str()).form(form)
    }

    /// Takes the token endpoint's answer in. A token is stored, and the
    /// client from then on sends it, with the user agent, in its default
    /// headers. A refusal becomes an `Auth` error with the reason given.
    pub fn with_auth(self, auth: AuthResponse) -> (r: Result<Reddit, RouxError>)
        ensures
            match auth@ {
                AuthView::Token(token) => r matches Ok(reddit) && reddit.config@ == (ConfigView {
                    access_token: Some(token),
                    ..self.config@
                }) && reddit.client@ == session_headers(token, self.config@.user_agent),
                AuthView::Refused(reason) => r matches Err(RouxError::Auth(text)) && text@
                    == reason,
            },
    {
        match auth {
            AuthResponse::AuthData { access_token } => {
                let mut bearer = String::from_str("Bearer ");
                bearer.append(access_token.as_str());
                let mut headers = no_params();
                push_param(&mut headers, "Authorization", bearer.as_str());
                push_param(&mut headers, "User-Agent", self.config.user_agent.as_str());
                let mut reddit = self;
                reddit.config.access_token = Some(access_token);
                reddit.client = Client::with_headers(headers);
                Ok(reddit)
            },
            AuthResponse::ErrorData { error } => Err(RouxError::Auth(error)),
        }
    }

    /// Finishes the password grant with the token endpoint's response, as
    /// `grant_of` reads it: a token is taken in as `with_auth` says, and each
    /// other outcome is the error of its kind.
    pub fn create_client(self, response: Response) -> (r: Result<Reddit, RouxError>)
        ensures
            match grant_of(response) {
                Grant::Token(token) => r matches Ok(reddit) && reddit.config@ == (ConfigView {
                    access_token: Some(token),
                    ..self.config@
                }) && reddit.client@ == session_headers(token, self.config@.user_agent),
                Grant::Refused(reason) => r matches Err(RouxError::Auth(text)) && text@
                    == reason,
                Grant::Unreadable => r matches Err(RouxError::Parse(_)),
                Grant::Rejected => r matches Err(RouxError::Status(kept)) && kept@ == response@,
            },
    {
        if !response.is_success() {
            return Err(RouxError::Status(response));
        }
        let json = match parse(response.body.as_str()) {
            Ok(json) => json,
            Err(error) => {
                return Err(error);
            },
        };
        match AuthResponse::from_json(&json) {
            Some(auth) => self.with_auth(auth),
            None => Err(RouxError::Parse(shape_error("data did not match any auth response"))),
        }
    }

    /// Login as a user: finishes the password grant with the token
    /// endpoint's response and hands the session over.
    pub fn login(self, response: Response) -> (r: Result<Me, RouxError>)
        ensures
            match grant_of(response) {
                Grant::Token(token) => r matches Ok(me) && me.config@ == (ConfigView {
                    access_token: Some(token),
                    ..self.config@
                }) && me.client@ == session_headers(token, self.config@.user_agent),
                Grant::Refused(reason) => r matches Err(RouxError::Auth(text)) && text@
                    == reason,
                Grant::Unreadable => r matches Err(RouxError::Parse(_)),
                Grant::Rejected => r matches Err(RouxError::Status(kept)) && kept@ == response@,
            },
    {
        match self.create_client(response) {
            Ok(reddit) => Ok(Me::new(&reddit.config, &reddit.client)),
            Err(error) => Err(error),
        }
    }

    /// Create a new authenticated `Subreddit` instance: finishes the password
    /// grant with the token endpoint's response.
    pub fn subreddit(self, name: &str, response: Response) -> (r: Result<Subreddit, RouxError>)
        ensures
            match grant_of(response) {
                Grant::Token(token) => r matches Ok(subreddit) && subreddit@ == oauth_subreddit(
                    name@,
                    session_headers(token, self.config@.user_agent),
                ),
                Grant::Refused(reason) => r matches Err(RouxError::Auth(text)) && text@
                    == reason,
                Grant::Unreadable => r matches Err(RouxError::Parse(_)),
                Grant::Rejected => r matches Err(RouxError::Status(kept)) && kept@ == response@,
            },
    {
        match self.create_client(response) {
            Ok(reddit) => Ok(Subreddit::new_oauth(name, &reddit.client)),
            Err(error) => Err(error),
        }
    }
}

} // verus!
