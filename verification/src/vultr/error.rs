//! Vultr domain validation errors.
use vstd::prelude::*;

use crate::text::{
    check_token, lemma_token_outcome_idempotent, lemma_tokens_outcome_fixed, string_result_view, token_outcome, tokens_outcome, CharClass,
    TextFault,
};

verus! {

/// Vultr domain validation failure.
#[derive(Debug, Clone, Copy, PartialEq, Eq, Structural)]
pub enum VultrError {
    /// The value was empty after boundary normalization.
    Empty,
    /// The value exceeded the fixed maximum length for its type.
    TooLong,
    /// The value contained a character outside the allowlist for its type.
    InvalidCharacter,
    /// The value was outside the accepted numeric range for its type.
    InvalidNumber,
    /// The value did not match a known Vultr instance status.
    UnknownInstanceStatus,
    /// The value did not match a known Vultr plan type.
    UnknownPlanType,
}

/// The message of each Vultr error.
pub open spec fn vultr_error_message(e: VultrError) -> Seq<char> {
    match e {
        VultrError::Empty => "vultr value is empty"@,
        VultrError::TooLong => "vultr value is too long"@,
        VultrError::InvalidCharacter => "vultr value contains an invalid character"@,
        VultrError::InvalidNumber => "vultr value is outside the accepted range"@,
        VultrError::UnknownInstanceStatus => "vultr instance status is unknown"@,
        VultrError::UnknownPlanType => "vultr plan type is unknown"@,
    }
}

impl VultrError {
    /// Returns the operator-facing message of this error.
    pub fn message(self) -> (r: &'static str)
        ensures
            r@ == vultr_error_message(self),
    {
        match self {
            VultrError::Empty => "vultr value is empty",
            VultrError::TooLong => "vultr value is too long",
            VultrError::InvalidCharacter => "vultr value contains an invalid character",
            VultrError::InvalidNumber => "vultr value is outside the accepted range",
            VultrError::UnknownInstanceStatus => "vultr instance status is unknown",
            VultrError::UnknownPlanType => "vultr plan type is unknown",
        }
    }
}

/// The Vultr error that reports a text fault.
pub open spec fn vultr_fault(f: TextFault) -> VultrError {
    match f {
        TextFault::Empty => VultrError::Empty,
        TextFault::TooLong => VultrError::TooLong,
        TextFault::InvalidCharacter => VultrError::InvalidCharacter,
    }
}

/// The outcome of validating a bounded Vultr token.
pub open spec fn vultr_token(s: Seq<char>, max: nat, k: CharClass) -> Result<Seq<char>, VultrError> {
    match token_outcome(s, max, k) {
        Ok(t) => Ok(t),
        Err(f) => Err(vultr_fault(f)),
    }
}

/// What a list of Vultr token texts yields: the first refused text decides
/// the error; otherwise the trimmed texts in order.
pub open spec fn vultr_tokens(items: Seq<Seq<char>>, max: nat, k: CharClass) -> Result<
    Seq<Seq<char>>,
    VultrError,
> {
    match tokens_outcome(items, max, k) {
        Ok(ts) => Ok(ts),
        Err(f) => Err(vultr_fault(f)),
    }
}

/// A list whose every text is accepted unchanged is accepted unchanged.
pub proof fn lemma_vultr_tokens_fixed(items: Seq<Seq<char>>, max: nat, k: CharClass)
    requires
        forall|i: int| 0 <= i < items.len() ==> vultr_token(#[trigger] items[i], max, k) == Ok::<Seq<char>, VultrError>(items[i]),
    ensures
        vultr_tokens(items, max, k) == Ok::<Seq<Seq<char>>, VultrError>(items),
{
    assert forall|i: int| 0 <= i < items.len() implies token_outcome(#[trigger] items[i], max, k) == Ok::<Seq<char>, TextFault>(items[i]) by {
        assert(vultr_token(items[i], max, k) == Ok::<Seq<char>, VultrError>(items[i]));
    }
    lemma_tokens_outcome_fixed(items, max, k);
}

/// Every validated Vultr value round-trips through its own text: the text
/// of an accepted token is accepted again, unchanged.
pub proof fn lemma_vultr_token_idempotent(s: Seq<char>, max: nat, k: CharClass)
    requires
        vultr_token(s, max, k) is Ok,
    ensures
        vultr_token(vultr_token(s, max, k)->Ok_0, max, k) == vultr_token(s, max, k),
{
    lemma_token_outcome_idempotent(s, max, k);
}

/// Validates a bounded Vultr token, as [`vultr_token`] describes.
pub fn vultr_check_token(value: &str, max: usize, k: CharClass) -> (r: Result<String, VultrError>)
    requires
        max <= usize::MAX - 4,
    ensures
        string_result_view(r) == vultr_token(value@, max as nat, k),
{
    match check_token(value, max, k) {
        Ok(text) => Ok(text),
        Err(TextFault::Empty) => Err(VultrError::Empty),
        Err(TextFault::TooLong) => Err(VultrError::TooLong),
        Err(TextFault::InvalidCharacter) => Err(VultrError::InvalidCharacter),
    }
}

} // verus!
