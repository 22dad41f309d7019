//! The health check.

use crate::http::OK;
use vstd::prelude::*;

verus! {

/// The status with which the service says that it is up: 200.
pub fn health_check() -> (status: u16)
    ensures
        status == OK,
{
    OK
}

} // verus!
