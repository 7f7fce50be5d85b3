//! A verified client core for an authenticated HTTP API.
//!
//! The crate manages a short-lived bearer credential, composes request URLs
//! with typed query parameters, and selects the HTTP verb for a dispatch.
//! The network transport itself is left to the caller: every function here
//! works on plain values and carries a proved contract.

mod client;
mod encode;
mod errors;
mod headers;
mod params;
mod verb;

pub use client::Client;
pub use client::PreparedRequest;
pub use client::TokenData;
pub use client::TokenResponse;
pub use client::default_env;
pub use client::default_expiration;
pub use client::default_url;
pub use client::query_string;
pub use client::resolved_config;
pub use client::lemma_fresh_token_is_sent;
pub use client::lemma_no_token_never_valid;
pub use client::lemma_refresh_validity;

pub use encode::hex_digit_char;
pub use encode::is_unreserved;
pub use encode::pct_byte;
pub use encode::pct_bytes;
pub use encode::pct_char;
pub use encode::pct_encoded;
pub use encode::percent_encode;
pub use errors::ClientError;
pub use verb::Verb;
pub use verb::parse_verb;
pub use verb::upper_char;
pub use verb::upper_seq;
pub use verb::verb_of;
pub use verb::lemma_dispatch_case_insensitive;
pub use headers::default_headers;
pub use headers::has_header_key;
pub use headers::header_views;
pub use headers::merge_headers;
pub use headers::merged_headers;
pub use headers::lemma_merge_authorization;
pub use params::ParamsValueType;
pub use params::dec_digit_char;
pub use params::dec_digits;
pub use params::dec_str_i32;
