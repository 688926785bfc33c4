//! A small peer-to-peer funds-transfer core: fixed-point money, an
//! authenticated transfer engine over an in-memory account store and
//! append-only ledger, a fail-closed resolver for QR payment payloads,
//! and the bearer-token gate that identifies the caller.

pub mod api;
pub mod auth;
pub mod b64;
pub mod engine;
pub mod jsontext;
pub mod models;
pub mod money;
pub mod oauth;
pub mod qr;
