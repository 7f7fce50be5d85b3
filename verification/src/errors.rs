//! The error taxonomy surfaced by the client.

use vstd::prelude::*;

verus! {

/// Why a client operation failed.
///
/// `Auth` reports a failed token exchange, carrying the response code and
/// message; `Transport` a network-level failure; `UnsupportedVerb` a verb
/// outside the allowed set, carrying the verb as given; `Serialization` a
/// response body that was not the expected shape.
#[derive(Debug)]
pub enum ClientError {
    Auth { code: i32, message: String },
    Transport(String),
    UnsupportedVerb(String),
    Serialization(String),
}

} // verus!
