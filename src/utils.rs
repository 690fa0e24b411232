//! The untagged success-or-error envelope of the API's responses.

use vstd::prelude::*;
use vstd::std_specs::convert::FromSpec;

verus! {

/// A response that is either a success payload or an error payload, told apart only by the
/// fields that it holds: the wire format carries no tag.
#[derive(Debug, Clone, PartialEq, Eq)]
pub enum UntaggedResult<T, E> {
    /// The success payload.
    Success(T),
    /// The error payload.
    Failure(E),
}

impl<T, E> From<Result<T, E>> for UntaggedResult<T, E> {
    fn from(result: Result<T, E>) -> (r: Self) {
        match result {
            Ok(value) => UntaggedResult::Success(value),
            Err(error) => UntaggedResult::Failure(error),
        }
    }
}

impl<T, E> vstd::std_specs::convert::FromSpecImpl<Result<T, E>> for UntaggedResult<T, E> {
    open spec fn obeys_from_spec() -> bool {
        true
    }

    open spec fn from_spec(result: Result<T, E>) -> Self {
        match result {
            Ok(value) => UntaggedResult::Success(value),
            Err(error) => UntaggedResult::Failure(error),
        }
    }
}

impl<T, E> From<UntaggedResult<T, E>> for Result<T, E> {
    fn from(untagged: UntaggedResult<T, E>) -> (r: Self) {
        match untagged {
            UntaggedResult::Success(value) => Ok(value),
            UntaggedResult::Failure(error) => Err(error),
        }
    }
}

impl<T, E> vstd::std_specs::convert::FromSpecImpl<UntaggedResult<T, E>> for Result<T, E> {
    open spec fn obeys_from_spec() -> bool {
        true
    }

    open spec fn from_spec(untagged: UntaggedResult<T, E>) -> Self {
        match untagged {
            UntaggedResult::Success(value) => Ok(value),
            UntaggedResult::Failure(error) => Err(error),
        }
    }
}

/// Converting a result into the envelope and back gives the result unchanged.
pub proof fn lemma_untagged_round_trip<T, E>(result: Result<T, E>)
    ensures
        <Result<T, E> as FromSpec<UntaggedResult<T, E>>>::from_spec(
            <UntaggedResult<T, E> as FromSpec<Result<T, E>>>::from_spec(result),
        ) == result,
{
}

} // verus!
