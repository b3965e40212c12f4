//! The identity of a client and of the user it acts for.

use vstd::prelude::*;
use crate::util::option::{copy_text, text_of};

verus! {

/// Client identity, optional user credentials and the current bearer token.
#[derive(Debug)]
pub struct Config {
    pub user_agent: String,
    pub client_id: String,
    pub client_secret: String,
    pub username: Option<String>,
    pub password: Option<String>,
    pub access_token: Option<String>,
}

/// What a `Config` holds, as mathematical values.
pub struct ConfigView {
    pub user_agent: Seq<char>,
    pub client_id: Seq<char>,
    pub client_secret: Seq<char>,
    pub username: Option<Seq<char>>,
    pub password: Option<Seq<char>>,
    pub access_token: Option<Seq<char>>,
}

impl ConfigView {
    /// A user name and a password are both set: what a password grant needs.
    pub open spec fn has_credentials(self) -> bool {
        self.username is Some && self.password is Some
    }
}

impl View for Config {
    type V = ConfigView;

    open spec fn view(&self) -> ConfigView {
        ConfigView {
            user_agent: self.user_agent@,
            client_id: self.client_id@,
            client_secret: self.client_secret@,
            username: text_of(self.username),
            password: text_of(self.password),
            access_token: text_of(self.access_token),
        }
    }
}

impl Config {
    /// A configuration with the client's identity and nothing else.
    pub fn new(user_agent: &str, client_id: &str, client_secret: &str) -> (config: Config)
        ensures
            config@ == (ConfigView {
                user_agent: user_agent@,
                client_id: client_id@,
                client_secret: client_secret@,
                username: None,
                password: None,
                access_token: None,
            }),
    {
        Config {
            user_agent: user_agent.to_owned(),
            client_id: client_id.to_owned(),
            client_secret: client_secret.to_owned(),
            username: None,
            password: None,
            access_token: None,
        }
    }
}

impl Clone for Config {
    fn clone(&self) -> (config: Config)
        ensures
            config@ == self@,
    {
        Config {
            user_agent: self.user_agent.clone(),
            client_id: self.client_id.clone(),
            client_secret: self.client_secret.clone(),
            username: copy_text(&self.username),
            password: copy_text(&self.password),
            access_token: copy_text(&self.access_token),
        }
    }
}

} // verus!
