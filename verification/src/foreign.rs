//! Types of other crates that the library's own types carry.
use vstd::prelude::*;

verus! {

/// A byte size, as the `size` crate represents it.
#[verifier::external_type_specification]
#[verifier::external_body]
pub struct ExSize(size::Size);

/// A failure to read JSON.
#[verifier::external_type_specification]
#[verifier::external_body]
pub struct ExSerdeJsonError(serde_json::Error);

/// A failed HTTP request.
#[verifier::external_type_specification]
#[verifier::external_body]
pub struct ExReqwestError(reqwest::Error);

/// A regular expression that failed to compile.
#[verifier::external_type_specification]
#[verifier::external_body]
pub struct ExRegexError(regex::Error);

/// A compiled regular expression.
#[verifier::external_type_specification]
#[verifier::external_body]
pub struct ExRegex(regex::Regex);

/// A failure to parse JSON, as the `json` crate reports it.
#[verifier::external_type_specification]
#[verifier::external_body]
pub struct ExJsonError(json::Error);

/// An instant of the monotonic clock.
#[verifier::external_type_specification]
#[verifier::external_body]
pub struct ExInstant(std::time::Instant);

} // verus!
