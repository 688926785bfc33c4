//! Plain data shapes of the service's HTTP surface. Amounts and
//! balances appear as integer cents wherever money is carried.

use vstd::prelude::*;

verus! {

/// The claims a bearer token carries: the subject and the expiry as a
/// Unix timestamp. Ephemeral — derived per request, never persisted.
pub struct Claims {
    pub sub: String,
    pub exp: i64,
}

/// The body of a QR payment request: the opaque scanned payload.
pub struct QRPaymentRequest {
    pub qr_data: String,
}

/// The query of the authorization endpoint.
pub struct OAuthAuthorizeRequest {
    pub client_id: String,
    pub redirect_uri: String,
    pub response_type: String,
    pub scope: Option<String>,
    pub state: Option<String>,
}

/// The body of the token endpoint.
pub struct OAuthTokenRequest {
    pub code: String,
    pub client_id: String,
    pub client_secret: String,
    pub redirect_uri: String,
    pub grant_type: String,
}

/// The uniform error body: a stable machine-readable code and a
/// human-readable message.
pub struct ErrorResponse {
    pub error: String,
    pub message: String,
}

} // verus!
