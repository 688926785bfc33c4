//! The payload resolver for QR payments: decodes an opaque QR string
//! into a normalized transfer intent, failing closed on any missing or
//! invalid field, so the engine never sees untyped input.

use vstd::prelude::*;
use crate::engine::{TransferIntent, IntentV};
use crate::jsontext::{JsonValue, JsonValueV, spec_parse_object, parse_object, field_of, field_get};
use crate::models::QRPaymentRequest;

verus! {

/// Why a QR payload was refused: not a flat JSON object at all, no
/// usable `account` string, or no usable `amount` number.
#[derive(Clone, Copy, PartialEq, Eq, Structural, Debug)]
pub enum QrError {
    MalformedPayload,
    MissingAccount,
    MissingOrInvalidAmount,
}

/// The intent a QR payload resolves to: the payload must be one flat
/// JSON object; `account` must be a string, `amount` a number (read as
/// exact cents), and `description`, when present, a string. The
/// amount's sign and the account's content are the engine's to judge.
pub open spec fn spec_resolve(s: Seq<char>) -> Result<IntentV, QrError> {
    match spec_parse_object(s) {
        None => Err(QrError::MalformedPayload),
        Some(pairs) => match field_of(pairs, "account"@) {
            Some(JsonValueV::Str(acc)) => match field_of(pairs, "amount"@) {
                Some(JsonValueV::Num(v)) => match field_of(pairs, "description"@) {
                    None => Ok(IntentV { recipient: acc, amount: v, description: None }),
                    Some(JsonValueV::Str(d)) => Ok(
                        IntentV { recipient: acc, amount: v, description: Some(d) },
                    ),
                    Some(JsonValueV::Num(_)) => Err(QrError::MalformedPayload),
                },
                _ => Err(QrError::MissingOrInvalidAmount),
            },
            _ => Err(QrError::MissingAccount),
        },
    }
}

/// Resolves the payload a QR payment request carries, exactly as
/// [`spec_resolve`] describes.
pub fn resolve_request(req: &QRPaymentRequest) -> (r: Result<TransferIntent, QrError>)
    ensures
        ({
            let so = spec_resolve(req.qr_data@);
            match r {
                Ok(intent) => so == Ok::<IntentV, QrError>(intent@),
                Err(e) => so == Err::<IntentV, QrError>(e),
            }
        }),
{
    resolve(req.qr_data.as_str())
}

/// Decodes a QR payload into a [`TransferIntent`], exactly as
/// [`spec_resolve`] describes.
pub fn resolve(qr_data: &str) -> (r: Result<TransferIntent, QrError>)
    ensures
        ({
            let so = spec_resolve(qr_data@);
            match r {
                Ok(intent) => so == Ok::<IntentV, QrError>(intent@),
                Err(e) => so == Err::<IntentV, QrError>(e),
            }
        }),
{
    let pairs = match parse_object(qr_data) {
        Some(p) => p,
        None => {
            return Err(QrError::MalformedPayload);
        },
    };
    let recipient = match field_get(&pairs, &String::from_str("account")) {
        Some(v) => match v {
            JsonValue::Str(a) => a.clone(),
            JsonValue::Num(_) => {
                return Err(QrError::MissingAccount);
            },
        },
        None => {
            return Err(QrError::MissingAccount);
        },
    };
    let amount = match field_get(&pairs, &String::from_str("amount")) {
        Some(v) => match v {
            JsonValue::Num(n) => *n,
            JsonValue::Str(_) => {
                return Err(QrError::MissingOrInvalidAmount);
            },
        },
        None => {
            return Err(QrError::MissingOrInvalidAmount);
        },
    };
    let description = match field_get(&pairs, &String::from_str("description")) {
        Some(v) => match v {
            JsonValue::Str(d) => Some(d.clone()),
            JsonValue::Num(_) => {
                return Err(QrError::MalformedPayload);
            },
        },
        None => None,
    };
    Ok(TransferIntent { recipient, amount, description })
}

} // verus!
