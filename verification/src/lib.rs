//! A client library for the Reddit API: it prepares the requests of a
//! session, reads the responses back into typed values and walks paginated
//! listings. The transport itself is left to the caller: every operation here
//! is a function from plain values to plain values.

pub mod client;
pub mod config;
pub mod json;
pub mod models;
pub mod paging;
pub mod reddit;
pub mod util;

pub use models::me::Me;
pub use models::subreddit::{Subreddit, Subreddits};
pub use models::user::User;
pub use reddit::Reddit;
