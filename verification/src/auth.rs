//! The credential protocol: the pipeline fails fast, before any network
//! call, when the credential environment is absent, and accepts the external
//! credential tool's output only when it actually printed a token.

use vstd::prelude::*;
use crate::errors::PipelineError;
use crate::text::trim_spaces;
use crate::text::trimmed;
use vstd::string::StrSliceExecFns;

verus! {

/// The fail-fast check: without the credential environment, no run proceeds.
pub fn credential_check(credentials_present: bool) -> (r: Result<(), PipelineError>)
    ensures
        r is Ok <==> credentials_present,
        !credentials_present ==> r == Err::<(), PipelineError>(PipelineError::AuthError),
{
    if credentials_present {
        Ok(())
    } else {
        Err(PipelineError::AuthError)
    }
}

/// The catalog credential pair: the run proceeds exactly when both the user
/// name and the access token are configured, and fails with the credential
/// error otherwise.
pub fn catalog_credentials(user: Option<String>, token: Option<String>) -> (r: Result<
    (String, String),
    PipelineError,
>)
    ensures
        r is Ok <==> (user is Some && token is Some),
        r matches Ok(pair) ==> user == Some(pair.0) && token == Some(pair.1),
        r matches Err(e) ==> e == PipelineError::AuthError,
{
    match (user, token) {
        (Some(u), Some(t)) => Ok((u, t)),
        _ => Err(PipelineError::AuthError),
    }
}

/// Validates what the external credential tool printed: the bearer token is
/// its output with surrounding whitespace removed, and an output holding no
/// token at all is a credential failure.
pub fn token_of_output(raw: &str) -> (r: Result<String, PipelineError>)
    ensures
        trimmed(raw@).len() > 0 ==> (r matches Ok(t) && t@ == trimmed(raw@)),
        trimmed(raw@).len() == 0 ==> r == Err::<String, PipelineError>(PipelineError::AuthError),
{
    let token = trim_spaces(raw);
    if token.as_str().unicode_len() == 0 {
        Err(PipelineError::AuthError)
    } else {
        Ok(token)
    }
}

} // verus!
