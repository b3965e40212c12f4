//! Helpers shared by every endpoint: URLs, feed options, defaults and errors.

pub mod defaults;
pub mod error;
pub mod option;
pub mod text;
pub mod url;

pub use error::RouxError;
pub use option::FeedOption;
pub use option::FeedOptionError;
pub use option::TimePeriod;
