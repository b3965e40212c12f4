//! The ways in which a call to the API fails.

use vstd::prelude::*;
use vstd::string::*;
use crate::client::Response;
use crate::json::{error_message, error_text};
use crate::util::option::{decimal, push_decimal};

verus! {

/// Error type that occurs when an API request fails for some reason.
#[derive(Debug)]
pub enum RouxError {
    /// Occurs when the API has returned a non-success error code. Holds the
    /// response as it came.
    Status(Response),
    /// Occurs when the request did not get through. Holds the transport's
    /// description of the failure.
    Network(String),
    /// Occurs if the response's body was no JSON text or did not have the
    /// expected shape.
    Parse(serde_json::Error),
    /// Occurs if there is a grant error.
    Auth(String),
    /// Occurs when an endpoint that needs a session is asked of a client
    /// without one.
    OAuthClientRequired,
}

impl RouxError {
    /// A one-line description of the error.
    pub fn message(&self) -> (text: String)
        ensures
            match *self {
                RouxError::Status(response) => text@ == "Status error: "@ + decimal(
                    response.status as nat,
                ),
                RouxError::Network(description) => text@ == description@,
                RouxError::Parse(error) => text@ == error_text(error),
                RouxError::Auth(reason) => text@ == "Auth error: "@ + reason@,
                RouxError::OAuthClientRequired => text@ == "OAuth client required"@,
            },
    {
        match self {
            RouxError::Status(response) => {
                let mut text = String::from_str("Status error: ");
                push_decimal(&mut text, response.status as u32);
                text
            },
            RouxError::Network(description) => description.clone(),
            RouxError::Parse(error) => error_message(error),
            RouxError::Auth(reason) => {
                let mut text = String::from_str("Auth error: ");
                text.append(reason.as_str());
                text
            },
            RouxError::OAuthClientRequired => String::from_str("OAuth client required"),
        }
    }
}

} // verus!
