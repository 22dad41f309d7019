//! The values that the service works on: addresses, names, confirmation
//! tokens, subscription states and URLs, each made only by a parser that
//! checks it.

pub mod email;
pub mod name;
pub mod subscriber_email;
pub mod subscription;
pub mod url;

pub use email::{email_is_valid, Email, ParseEmailError};
pub use name::{grapheme_count, Name, ParseNameError};
pub use subscriber_email::SubscriberEmail;
pub use subscription::{
    ParseSubscriptionStatusError, ParseSubscriptionTokenError, SubscriptionStatus,
    SubscriptionToken,
};
pub use url::{ParseUrlError, Url};
