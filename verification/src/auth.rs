//! The bearer token that each request carries.

use crate::error::{ConnectorError, ErrorView};
use vstd::prelude::*;

verus! {

/// What is said where no token could be had.
pub open spec fn token_failure() -> Seq<char> {
    "Failed to retrieve authentication token."@
}

/// The authorization header of one request. Without authentication it is
/// empty and nothing is asked of the token provider; with it, it is what
/// the provider minted, and a provider that minted nothing makes the
/// service unavailable for this request.
pub fn bearer_header(skip_authentication: bool, minted: Option<String>) -> (header: Result<
    String,
    ConnectorError,
>)
    ensures
        skip_authentication ==> header.is_ok() && header.unwrap()@ == Seq::<char>::empty(),
        !skip_authentication ==> match minted {
            Some(token) => header == Ok::<String, ConnectorError>(token),
            None => header.is_err() && header.unwrap_err()@ == ErrorView::Unavailable(
                token_failure(),
            ),
        },
{
    if skip_authentication {
        Ok(String::new())
    } else {
        match minted {
            Some(token) => Ok(token),
            None => Err(ConnectorError::Unavailable("Failed to retrieve authentication token.".to_owned())),
        }
    }
}

} // verus!
