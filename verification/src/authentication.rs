//! Who is asking: editors, their credentials, and the guard before the pages
//! that only an editor may see.

pub mod basic;
pub mod credentials;
pub mod middleware;

pub use basic::{add_basic_auth_header, retrieve_basic_auth, AuthorizationHeader};
pub use credentials::{
    change_password, validate_credentials, AuthError, Credentials, StoredCredentials,
};
pub use middleware::{reject_anonymous_users, UserId};
