//! The settings of the service, once they have been read.

use crate::domain::email::{email_error_suffix, email_is_valid};
use crate::domain::url::{parsed, refused, url_parsed};
use crate::domain::{Email, ParseEmailError, ParseUrlError, Url};
use crate::text::{folded, join_text, same_text, to_lowercase};
use vstd::prelude::*;

verus! {

/// The name of the variable that selects the environment.
pub const APP_ENVIRONMENT_ENV_VAR: &'static str = "APP_ENVIRONMENT";

/// Where the service listens, and under which URL it is reached.
#[derive(Debug)]
pub struct ApplicationSettings {
    pub host: String,
    pub port: u16,
    pub base_url: String,
}

impl ApplicationSettings {
    /// The base URL, parsed.
    pub fn base_url(&self) -> (r: Result<Url, ParseUrlError>)
        ensures
            r matches Ok(u) ==> url_parsed(self.base_url@) == parsed(u@),
            r matches Err(e) ==> url_parsed(self.base_url@) == refused(e@),
    {
        Url::parse(self.base_url.as_str())
    }
}

/// How the email provider is reached.
pub struct EmailClientSettings {
    pub base_url: String,
    pub sender_email: String,
    pub authorization_token: String,
    pub timeout_ms: u64,
}

impl EmailClientSettings {
    /// The sender's address, parsed.
    pub fn sender(&self) -> (r: Result<Email, ParseEmailError>)
        ensures
            r is Ok <==> email_is_valid(self.sender_email@),
            r matches Ok(e) ==> e@ == self.sender_email@ && e.wf(),
            r matches Err(e) ==> e@ == self.sender_email@ + email_error_suffix(),
    {
        Email::parse(self.sender_email.as_str())
    }

    /// The provider's URL, parsed.
    pub fn url(&self) -> (r: Result<Url, ParseUrlError>)
        ensures
            r matches Ok(u) ==> url_parsed(self.base_url@) == parsed(u@),
            r matches Err(e) ==> url_parsed(self.base_url@) == refused(e@),
    {
        Url::parse(self.base_url.as_str())
    }

    /// The time allowed for one call to the provider, in milliseconds.
    pub fn timeout(&self) -> (ms: u64)
        ensures
            ms == self.timeout_ms,
    {
        self.timeout_ms
    }
}

/// How the database is reached, but for the password.
#[derive(Debug)]
pub struct DatabaseSettings {
    pub username: String,
    pub host: String,
    pub port: u16,
    pub database_name: String,
    pub require_ssl: bool,
}

/// Whether a connection must be encrypted, or only should be.
#[derive(Debug, Clone, Copy, PartialEq, Eq, Structural)]
pub enum SslMode {
    Require,
    Prefer,
}

impl DatabaseSettings {
    /// `Require` where the settings demand encryption, else `Prefer`.
    pub fn ssl_mode(&self) -> (mode: SslMode)
        ensures
            mode == if self.require_ssl {
                SslMode::Require
            } else {
                SslMode::Prefer
            },
    {
        if self.require_ssl {
            SslMode::Require
        } else {
            SslMode::Prefer
        }
    }
}

/// The environment that the service runs in.
#[derive(Debug, Clone, Copy, PartialEq, Eq, Structural)]
pub enum Environment {
    Local,
    Production,
}

/// The text of an environment.
pub open spec fn environment_text(environment: Environment) -> Seq<char> {
    match environment {
        Environment::Local => "local"@,
        Environment::Production => "production"@,
    }
}

/// The environment that a text stands for, whatever its case.
pub open spec fn environment_of_text(s: Seq<char>) -> Option<Environment> {
    if folded(s) == "local"@ {
        Some(Environment::Local)
    } else if folded(s) == "production"@ {
        Some(Environment::Production)
    } else {
        None
    }
}

impl Environment {
    /// The text of the environment.
    pub fn as_str(&self) -> (s: &'static str)
        ensures
            s@ == environment_text(*self),
    {
        match self {
            Environment::Local => "local",
            Environment::Production => "production",
        }
    }

    /// The text of the environment, as an owned text.
    pub fn to_string(&self) -> (s: String)
        ensures
            s@ == environment_text(*self),
    {
        self.as_str().to_owned()
    }

    /// Reads an environment, whatever the case of the text; any other text is
    /// refused with a message that names it in lower case.
    pub fn try_from(s: String) -> (r: Result<Environment, String>)
        ensures
            r matches Ok(environment) ==> environment_of_text(s@) == Some(environment),
            r matches Err(e) ==> environment_of_text(s@) is None && e@ == folded(s@)
                + " is not a supported environment, use either `local` or `production`"@,
    {
        let lower = to_lowercase(s.as_str());
        if same_text(lower.as_str(), "local") {
            Ok(Environment::Local)
        } else if same_text(lower.as_str(), "production") {
            Ok(Environment::Production)
        } else {
            Err(
                join_text(
                    lower.as_str(),
                    " is not a supported environment, use either `local` or `production`",
                ),
            )
        }
    }

}

/// The environment that the variable `APP_ENVIRONMENT` selects, given its
/// value: `Local` where it is not set, else what its value reads as; `None`
/// where the value is refused.
pub fn get_environment(variable: Option<String>) -> (r: Option<Environment>)
    ensures
        r == match variable {
            Some(value) => environment_of_text(value@),
            None => Some(Environment::Local),
        },
{
    match variable {
        None => Some(Environment::Local),
        Some(value) => match Environment::try_from(value) {
            Ok(environment) => Some(environment),
            Err(_) => None,
        },
    }
}

} // verus!
