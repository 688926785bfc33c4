//! The closed error taxonomy mapped to HTTP status codes and error
//! bodies at the boundary: authentication failures are 401, validation
//! and business failures 400 (404 for a missing QR recipient), and
//! storage-level failures 500. No handler builds ad hoc error shapes.

use vstd::prelude::*;
use crate::auth::AuthError;
use crate::engine::TransferError;
use crate::models::ErrorResponse;
use crate::qr::QrError;

verus! {

/// The status code of a refused direct transfer: every validation and
/// business failure is 400; a sender that cannot be resolved for a
/// validly authenticated caller, or a storage overflow, is 500.
pub open spec fn spec_transfer_status(e: TransferError) -> u16 {
    match e {
        TransferError::InvalidAmount => 400,
        TransferError::InvalidRecipient => 400,
        TransferError::InsufficientFunds => 400,
        TransferError::RecipientNotFound => 400,
        TransferError::AccountNotFound => 500,
        TransferError::StorageOverflow => 500,
    }
}

/// The status code of a refused QR payment: as the direct path, except
/// that a recipient the payload names but the store does not hold
/// is 404.
pub open spec fn spec_qr_status(e: TransferError) -> u16 {
    match e {
        TransferError::RecipientNotFound => 404,
        _ => spec_transfer_status(e),
    }
}

/// The machine-readable code of a transfer error.
pub open spec fn spec_transfer_code(e: TransferError) -> Seq<char> {
    match e {
        TransferError::InvalidAmount => "invalid_amount"@,
        TransferError::InvalidRecipient => "invalid_recipient"@,
        TransferError::InsufficientFunds => "insufficient_funds"@,
        TransferError::RecipientNotFound => "recipient_not_found"@,
        TransferError::AccountNotFound => "account_not_found"@,
        TransferError::StorageOverflow => "storage_error"@,
    }
}

/// The status code of a refused direct transfer.
pub fn transfer_status(e: TransferError) -> (r: u16)
    ensures
        r == spec_transfer_status(e),
{
    match e {
        TransferError::InvalidAmount => 400,
        TransferError::InvalidRecipient => 400,
        TransferError::InsufficientFunds => 400,
        TransferError::RecipientNotFound => 400,
        TransferError::AccountNotFound => 500,
        TransferError::StorageOverflow => 500,
    }
}

/// The status code of a refused QR payment.
pub fn qr_status(e: TransferError) -> (r: u16)
    ensures
        r == spec_qr_status(e),
{
    match e {
        TransferError::RecipientNotFound => 404,
        _ => transfer_status(e),
    }
}

/// The error body of a refused transfer, code and message.
pub fn transfer_error_response(e: TransferError) -> (r: ErrorResponse)
    ensures
        r.error@ == spec_transfer_code(e),
        r.message@ == (match e {
            TransferError::InvalidAmount => "Amount must be greater than 0"@,
            TransferError::InvalidRecipient => "Recipient account is required"@,
            TransferError::InsufficientFunds => "Insufficient funds for this transfer"@,
            TransferError::RecipientNotFound => "Recipient account not found"@,
            TransferError::AccountNotFound => "Sender account could not be resolved"@,
            TransferError::StorageOverflow => "Stored value would overflow"@,
        }),
{
    match e {
        TransferError::InvalidAmount => ErrorResponse {
            error: String::from_str("invalid_amount"),
            message: String::from_str("Amount must be greater than 0"),
        },
        TransferError::InvalidRecipient => ErrorResponse {
            error: String::from_str("invalid_recipient"),
            message: String::from_str("Recipient account is required"),
        },
        TransferError::InsufficientFunds => ErrorResponse {
            error: String::from_str("insufficient_funds"),
            message: String::from_str("Insufficient funds for this transfer"),
        },
        TransferError::RecipientNotFound => ErrorResponse {
            error: String::from_str("recipient_not_found"),
            message: String::from_str("Recipient account not found"),
        },
        TransferError::AccountNotFound => ErrorResponse {
            error: String::from_str("account_not_found"),
            message: String::from_str("Sender account could not be resolved"),
        },
        TransferError::StorageOverflow => ErrorResponse {
            error: String::from_str("storage_error"),
            message: String::from_str("Stored value would overflow"),
        },
    }
}

/// The machine-readable code of a refused QR payload.
pub open spec fn spec_qr_resolve_code(e: QrError) -> Seq<char> {
    match e {
        QrError::MalformedPayload => "invalid_qr"@,
        QrError::MissingAccount => "invalid_qr"@,
        QrError::MissingOrInvalidAmount => "invalid_amount"@,
    }
}

/// The error body of a QR payload that would not resolve; always
/// status 400.
pub fn qr_resolve_error_response(e: QrError) -> (r: ErrorResponse)
    ensures
        r.error@ == spec_qr_resolve_code(e),
        r.message@ == (match e {
            QrError::MalformedPayload => "QR payload could not be decoded"@,
            QrError::MissingAccount => "QR payload names no account"@,
            QrError::MissingOrInvalidAmount => "QR payload has no valid amount"@,
        }),
{
    match e {
        QrError::MalformedPayload => ErrorResponse {
            error: String::from_str("invalid_qr"),
            message: String::from_str("QR payload could not be decoded"),
        },
        QrError::MissingAccount => ErrorResponse {
            error: String::from_str("invalid_qr"),
            message: String::from_str("QR payload names no account"),
        },
        QrError::MissingOrInvalidAmount => ErrorResponse {
            error: String::from_str("invalid_amount"),
            message: String::from_str("QR payload has no valid amount"),
        },
    }
}

/// The error body of a refused credential; always status 401, always
/// the same body, whichever [`AuthError`] occurred.
pub fn auth_error_response(e: AuthError) -> (r: ErrorResponse)
    ensures
        r.error@ == "unauthorized"@,
        r.message@ == "Invalid or missing token"@,
{
    match e {
        AuthError::Missing => ErrorResponse {
            error: String::from_str("unauthorized"),
            message: String::from_str("Invalid or missing token"),
        },
        AuthError::Malformed => ErrorResponse {
            error: String::from_str("unauthorized"),
            message: String::from_str("Invalid or missing token"),
        },
        AuthError::InvalidOrExpired => ErrorResponse {
            error: String::from_str("unauthorized"),
            message: String::from_str("Invalid or missing token"),
        },
    }
}

} // verus!
