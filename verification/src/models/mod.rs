//! The endpoints, by the kind of thing they are about, and the shapes of
//! what they answer.

pub mod about;
pub mod comment;
pub mod friend;
pub mod link_flair;
pub mod me;
pub mod moderator;
pub mod reply;
pub mod response;
pub mod saved;
pub mod submission;
pub mod subreddit;
pub mod user;

pub use me::Me;
pub use subreddit::{Subreddit, Subreddits};
pub use user::User;
