use vstd::prelude::*;
use crate::text::{decimal, push_decimal};
use crate::trip_id::{hyphenated_text, TripId};

verus! {

/// Errors that a trip source may return.
///
/// Marked `#[non_exhaustive]` so new variants can be added without breaking
/// existing error-handling code.
#[derive(Debug, Clone)]
#[non_exhaustive]
pub enum SourceError {
    Network(String),
    Parse(String),
    Auth(String),
    RateLimited(u64),
}

/// The message that describes a source error.
pub open spec fn source_error_text(e: SourceError) -> Seq<char> {
    match e {
        SourceError::Network(detail) => "network error: "@ + detail@,
        SourceError::Parse(detail) => "parse error: "@ + detail@,
        SourceError::Auth(detail) => "auth error: "@ + detail@,
        SourceError::RateLimited(seconds) => "rate limited; retry after "@ + decimal(
            seconds as nat,
        ) + "s"@,
    }
}

impl SourceError {
    /// The error's message, e.g. `rate limited; retry after 30s`.
    pub fn to_string(&self) -> (text: String)
        ensures
            text@ == source_error_text(*self),
    {
        match self {
            SourceError::Network(detail) => {
                let mut text = String::from_str("network error: ");
                text.append(detail.as_str());
                text
            },
            SourceError::Parse(detail) => {
                let mut text = String::from_str("parse error: ");
                text.append(detail.as_str());
                text
            },
            SourceError::Auth(detail) => {
                let mut text = String::from_str("auth error: ");
                text.append(detail.as_str());
                text
            },
            SourceError::RateLimited(seconds) => {
                let mut text = String::from_str("rate limited; retry after ");
                push_decimal(&mut text, *seconds);
                text.append("s");
                text
            },
        }
    }
}

/// Errors that a trip store may return.
///
/// Marked `#[non_exhaustive]` so adding new variants in a future release
/// doesn't break existing `match` arms.
#[derive(Debug, Clone)]
#[non_exhaustive]
pub enum StoreError {
    NotFound(TripId),
    /// The storage backend is unavailable. The `String` carries a
    /// human-readable reason; concrete stores convert their specific error
    /// types into this variant.
    Unavailable(String),
    Serialization(String),
}

/// The message that describes a store error.
pub open spec fn store_error_text(e: StoreError) -> Seq<char> {
    match e {
        StoreError::NotFound(id) => "trip not found: "@ + hyphenated_text(id.bits()),
        StoreError::Unavailable(reason) => "storage unavailable: "@ + reason@,
        StoreError::Serialization(detail) => "serialization error: "@ + detail@,
    }
}

impl StoreError {
    /// The error's message, e.g. `storage unavailable: disk full`.
    pub fn to_string(&self) -> (text: String)
        ensures
            text@ == store_error_text(*self),
    {
        match self {
            StoreError::NotFound(id) => {
                let mut text = String::from_str("trip not found: ");
                let id_text = id.to_string();
                text.append(id_text.as_str());
                text
            },
            StoreError::Unavailable(reason) => {
                let mut text = String::from_str("storage unavailable: ");
                text.append(reason.as_str());
                text
            },
            StoreError::Serialization(detail) => {
                let mut text = String::from_str("serialization error: ");
                text.append(detail.as_str());
                text
            },
        }
    }
}

} // verus!
