//! Making a request safe to repeat: the key that names it, and the answer
//! that is kept under the key.

pub mod key;
pub mod persistence;

pub use key::IdempotencyKey;
pub use persistence::{
    get_saved_response, save_response, try_processing, IdempotencyRecord, NextAction,
};
