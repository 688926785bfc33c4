use deltaup::api::{
    auth_error_response, qr_resolve_error_response, qr_status, transfer_error_response,
    transfer_status,
};
use deltaup::auth::AuthError;
use deltaup::engine::TransferError;
use deltaup::oauth::{authorize_decision, build_redirect_url, oauth_error_response, token_decision, OAuthError};
use deltaup::qr::QrError;

#[test]
fn direct_transfer_statuses() {
    assert_eq!(transfer_status(TransferError::InvalidAmount), 400);
    assert_eq!(transfer_status(TransferError::InvalidRecipient), 400);
    assert_eq!(transfer_status(TransferError::InsufficientFunds), 400);
    assert_eq!(transfer_status(TransferError::RecipientNotFound), 400);
    assert_eq!(transfer_status(TransferError::AccountNotFound), 500);
    assert_eq!(transfer_status(TransferError::StorageOverflow), 500);
}

#[test]
fn qr_statuses_differ_only_for_the_missing_recipient() {
    assert_eq!(qr_status(TransferError::RecipientNotFound), 404);
    assert_eq!(qr_status(TransferError::InvalidAmount), 400);
    assert_eq!(qr_status(TransferError::InsufficientFunds), 400);
    assert_eq!(qr_status(TransferError::StorageOverflow), 500);
}

#[test]
fn transfer_error_bodies() {
    let r = transfer_error_response(TransferError::InvalidAmount);
    assert_eq!(r.error, "invalid_amount");
    assert_eq!(r.message, "Amount must be greater than 0");
    let r = transfer_error_response(TransferError::InvalidRecipient);
    assert_eq!(r.error, "invalid_recipient");
    assert_eq!(r.message, "Recipient account is required");
    let r = transfer_error_response(TransferError::InsufficientFunds);
    assert_eq!(r.error, "insufficient_funds");
    let r = transfer_error_response(TransferError::RecipientNotFound);
    assert_eq!(r.error, "recipient_not_found");
}

#[test]
fn qr_resolve_error_bodies() {
    assert_eq!(qr_resolve_error_response(QrError::MalformedPayload).error, "invalid_qr");
    assert_eq!(qr_resolve_error_response(QrError::MissingAccount).error, "invalid_qr");
    assert_eq!(
        qr_resolve_error_response(QrError::MissingOrInvalidAmount).error,
        "invalid_amount"
    );
}

#[test]
fn every_auth_failure_maps_to_one_unauthorized_body() {
    for e in [AuthError::Missing, AuthError::Malformed, AuthError::InvalidOrExpired] {
        let r = auth_error_response(e);
        assert_eq!(r.error, "unauthorized");
        assert_eq!(r.message, "Invalid or missing token");
    }
}

fn authorize_req(client_id: &str, response_type: &str) -> deltaup::models::OAuthAuthorizeRequest {
    deltaup::models::OAuthAuthorizeRequest {
        client_id: client_id.to_string(),
        redirect_uri: "https://app.example/cb".to_string(),
        response_type: response_type.to_string(),
        scope: None,
        state: None,
    }
}

fn token_req(grant_type: &str) -> deltaup::models::OAuthTokenRequest {
    deltaup::models::OAuthTokenRequest {
        code: "abc".to_string(),
        client_id: "app".to_string(),
        client_secret: "test-client-secret".to_string(),
        redirect_uri: "https://app.example/cb".to_string(),
        grant_type: grant_type.to_string(),
    }
}

#[test]
fn authorize_requires_a_client_and_the_code_flow() {
    assert!(matches!(
        authorize_decision(&authorize_req("", "code")),
        Err(OAuthError::InvalidRequest)
    ));
    assert!(matches!(
        authorize_decision(&authorize_req("app", "token")),
        Err(OAuthError::UnsupportedResponseType)
    ));
    assert!(authorize_decision(&authorize_req("app", "code")).is_ok());
}

#[test]
fn token_requires_the_authorization_code_grant() {
    assert!(matches!(
        token_decision(&token_req("client_credentials")),
        Err(OAuthError::UnsupportedGrantType)
    ));
    assert!(token_decision(&token_req("authorization_code")).is_ok());
}

#[test]
fn redirects_carry_code_and_state() {
    assert_eq!(
        build_redirect_url("https://app.example/cb", "abc123", "xyz"),
        "https://app.example/cb?code=abc123&state=xyz"
    );
    assert_eq!(build_redirect_url("u", "c", ""), "u?code=c&state=");
}

#[test]
fn oauth_error_bodies() {
    assert_eq!(oauth_error_response(OAuthError::InvalidRequest).error, "invalid_request");
    assert_eq!(oauth_error_response(OAuthError::InvalidRequest).message, "client_id is required");
    assert_eq!(
        oauth_error_response(OAuthError::UnsupportedResponseType).error,
        "unsupported_response_type"
    );
    assert_eq!(
        oauth_error_response(OAuthError::UnsupportedGrantType).error,
        "unsupported_grant_type"
    );
}
