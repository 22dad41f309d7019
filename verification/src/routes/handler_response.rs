//! The plain answer of a handler: a status code and a message.

use crate::http::{INTERNAL_SERVER_ERROR, OK, UNAUTHORIZED, UNPROCESSABLE_ENTITY};
use vstd::prelude::*;

verus! {

/// A status code and the message that goes with it.
#[derive(Debug)]
pub struct HandlerResponse {
    pub status_code: u16,
    pub message: String,
}

impl HandlerResponse {
    /// 200, "OK".
    pub fn ok() -> (r: Self)
        ensures
            r.status_code == OK,
            r.message@ == "OK"@,
    {
        HandlerResponse { status_code: OK, message: "OK".to_owned() }
    }

    /// 500, "Something wrong with our server".
    pub fn server_error() -> (r: Self)
        ensures
            r.status_code == INTERNAL_SERVER_ERROR,
            r.message@ == "Something wrong with our server"@,
    {
        HandlerResponse {
            status_code: INTERNAL_SERVER_ERROR,
            message: "Something wrong with our server".to_owned(),
        }
    }

    /// 422 with the given message.
    pub fn parse_error(message: &str) -> (r: Self)
        ensures
            r.status_code == UNPROCESSABLE_ENTITY,
            r.message@ == message@,
    {
        HandlerResponse { status_code: UNPROCESSABLE_ENTITY, message: message.to_owned() }
    }

    /// 401 with the given message.
    pub fn authorization_error(message: &str) -> (r: Self)
        ensures
            r.status_code == UNAUTHORIZED,
            r.message@ == message@,
    {
        HandlerResponse { status_code: UNAUTHORIZED, message: message.to_owned() }
    }
}

} // verus!
