//! The decision core of the authorization-code endpoints: which
//! requests are acceptable and how the redirect target is assembled.
//! The HTTP shell around these decisions — code storage, redirects,
//! user records — lives outside the library.

use vstd::prelude::*;
use crate::models::{ErrorResponse, OAuthAuthorizeRequest, OAuthTokenRequest};

verus! {

/// Why an authorization or token request was refused.
#[derive(Clone, Copy, PartialEq, Eq, Structural, Debug)]
pub enum OAuthError {
    InvalidRequest,
    UnsupportedResponseType,
    UnsupportedGrantType,
}

/// Whether an authorization request is acceptable: the client
/// identifier must be nonempty and the response type must be `code`.
pub open spec fn spec_authorize_decision(client_id: Seq<char>, response_type: Seq<char>) -> Result<
    (),
    OAuthError,
> {
    if client_id.len() == 0 {
        Err(OAuthError::InvalidRequest)
    } else if response_type != "code"@ {
        Err(OAuthError::UnsupportedResponseType)
    } else {
        Ok(())
    }
}

/// Judges an authorization request, exactly as
/// [`spec_authorize_decision`] describes.
pub fn authorize_decision(req: &OAuthAuthorizeRequest) -> (r: Result<(), OAuthError>)
    ensures
        r == spec_authorize_decision(req.client_id@, req.response_type@),
{
    if req.client_id.as_str().unicode_len() == 0 {
        Err(OAuthError::InvalidRequest)
    } else if !(req.response_type == String::from_str("code")) {
        Err(OAuthError::UnsupportedResponseType)
    } else {
        Ok(())
    }
}

/// Whether a token request is acceptable: only the
/// `authorization_code` grant is supported.
pub open spec fn spec_token_decision(grant_type: Seq<char>) -> Result<(), OAuthError> {
    if grant_type != "authorization_code"@ {
        Err(OAuthError::UnsupportedGrantType)
    } else {
        Ok(())
    }
}

/// Judges a token request, exactly as [`spec_token_decision`]
/// describes.
pub fn token_decision(req: &OAuthTokenRequest) -> (r: Result<(), OAuthError>)
    ensures
        r == spec_token_decision(req.grant_type@),
{
    if !(req.grant_type == String::from_str("authorization_code")) {
        Err(OAuthError::UnsupportedGrantType)
    } else {
        Ok(())
    }
}

/// The redirect target an accepted authorization request is sent to:
/// the redirect URI with the issued code and the client's state echoed
/// in the query.
pub fn build_redirect_url(redirect_uri: &str, code: &str, state: &str) -> (r: String)
    ensures
        r@ == redirect_uri@ + "?code="@ + code@ + "&state="@ + state@,
{
    redirect_uri.to_owned().concat("?code=").concat(code).concat("&state=").concat(state)
}

/// The error body of a refused OAuth request; always status 400.
pub fn oauth_error_response(e: OAuthError) -> (r: ErrorResponse)
    ensures
        r.error@ == (match e {
            OAuthError::InvalidRequest => "invalid_request"@,
            OAuthError::UnsupportedResponseType => "unsupported_response_type"@,
            OAuthError::UnsupportedGrantType => "unsupported_grant_type"@,
        }),
        r.message@ == (match e {
            OAuthError::InvalidRequest => "client_id is required"@,
            OAuthError::UnsupportedResponseType => "Only 'code' response type is supported"@,
            OAuthError::UnsupportedGrantType => "Only 'authorization_code' grant type is supported"@,
        }),
{
    match e {
        OAuthError::InvalidRequest => ErrorResponse {
            error: String::from_str("invalid_request"),
            message: String::from_str("client_id is required"),
        },
        OAuthError::UnsupportedResponseType => ErrorResponse {
            error: String::from_str("unsupported_response_type"),
            message: String::from_str("Only 'code' response type is supported"),
        },
        OAuthError::UnsupportedGrantType => ErrorResponse {
            error: String::from_str("unsupported_grant_type"),
            message: String::from_str("Only 'authorization_code' grant type is supported"),
        },
    }
}

} // verus!
