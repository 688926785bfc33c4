//! The authentication gate: issuing and checking signed, time-boxed
//! bearer tokens. The token text — base64url segments, the claims
//! object, the expiry check — is parsed and built by verified code;
//! only the HMAC-SHA256 signature itself is computed by the
//! `jsonwebtoken` crate behind trusted wrappers.

use vstd::prelude::*;
use vstd::utf8::{valid_utf8, decode_utf8, encode_utf8};
use crate::b64::{b64u_encode, b64u_decode, b64u_encode_from, b64u_decode_from};
use crate::jsontext::{
    JsonValue, JsonValueV, spec_parse_object, parse_object, field_of, field_get,
};
use crate::models::Claims;
use crate::money::{spec_u64_str, u64_str};

verus! {

/// Why a bearer credential was refused: no header at all, a header
/// without the bearer shape, or a token whose signature, claims or
/// expiry do not check out.
#[derive(Clone, Copy, PartialEq, Eq, Structural, Debug)]
pub enum AuthError {
    Missing,
    Malformed,
    InvalidOrExpired,
}

/// The base64url text of the HMAC-SHA256 signature that signing
/// `msg` with `secret` produces. Named, not spelled out: the value is
/// a function of the two arguments alone, computed by `jsonwebtoken`.
pub uninterp spec fn hs256_sig_of(msg: Seq<u8>, secret: Seq<u8>) -> Seq<char>;

/// Relies on `jsonwebtoken::crypto::sign` with `Algorithm::HS256` and a
/// key from `EncodingKey::from_secret`: it returns the unpadded
/// base64url text of the HMAC-SHA256 of the message, a deterministic
/// function of message and secret. For an HMAC key of any length the
/// signer cannot fail, so the error branch is unreachable; it is mapped
/// to the empty string rather than a panic.
#[verifier::external_body]
fn hmac_sign(message: &[u8], secret: &[u8]) -> (r: String)
    ensures
        r@ == hs256_sig_of(message@, secret@),
{
    let key = jsonwebtoken::EncodingKey::from_secret(secret);
    match jsonwebtoken::crypto::sign(message, &key, jsonwebtoken::Algorithm::HS256) {
        Ok(sig) => sig,
        Err(_) => String::new(),
    }
}

/// Relies on `jsonwebtoken::crypto::verify` with `Algorithm::HS256`: it
/// recomputes the HMAC of the message and compares. Its strict unpadded
/// base64url decoding accepts exactly one text form per byte string, so
/// the comparison succeeds precisely when `signature` is the canonical
/// text of the recomputed HMAC; a signature it cannot decode (its error
/// branch) is therefore not that text, and is mapped to `false`.
#[verifier::external_body]
fn hmac_verify(signature: &str, message: &[u8], secret: &[u8]) -> (r: bool)
    ensures
        r == (signature@ == hs256_sig_of(message@, secret@)),
{
    let key = jsonwebtoken::DecodingKey::from_secret(secret);
    match jsonwebtoken::crypto::verify(signature, message, &key, jsonwebtoken::Algorithm::HS256) {
        Ok(b) => b,
        Err(_) => false,
    }
}

/// Relies on `chrono::Utc::now`: the current Unix timestamp in seconds.
/// Nothing can be promised of a clock reading.
#[verifier::external_body]
pub fn now_unix() -> i64 {
    chrono::Utc::now().timestamp()
}

/// Relies on `String::from_utf8`, which std documents to succeed
/// exactly on valid UTF-8 and to return the string those bytes encode;
/// `vstd`'s UTF-8 model says what that means.
#[verifier::external_body]
fn utf8_to_string(bytes: &[u8]) -> (r: Option<String>)
    ensures
        (r matches Some(s) ==> valid_utf8(bytes@) && s@ == decode_utf8(bytes@)),
        r is None ==> !valid_utf8(bytes@),
{
    String::from_utf8(bytes.to_vec()).ok()
}

/// The fixed header of every token this gate issues.
pub open spec fn header_json() -> Seq<char> {
    "{\"alg\":\"HS256\",\"typ\":\"JWT\"}"@
}

/// The claims object for a subject and an expiry timestamp.
pub open spec fn claims_json(sub: Seq<char>, exp: int) -> Seq<char>
    recommends
        exp >= 0,
{
    "{\"sub\":\""@ + sub + "\",\"exp\":"@ + spec_u64_str(exp) + "}"@
}

/// The complete token for a subject: base64url of the header, a dot,
/// base64url of the claims, a dot, and the HMAC signature of the first
/// two segments.
pub open spec fn spec_token(sub: Seq<char>, exp: int, secret: Seq<u8>) -> Seq<char>
    recommends
        exp >= 0,
{
    let msg = b64u_encode_from(encode_utf8(header_json()), 0) + seq!['.'] + b64u_encode_from(
        encode_utf8(claims_json(sub, exp)),
        0,
    );
    msg + seq!['.'] + hs256_sig_of(encode_utf8(msg), secret)
}

/// Issues a token for `user_id` that expires 24 hours after `now`,
/// exactly as [`spec_token`] lays it out.
pub fn create_token(user_id: &str, secret: &[u8], now: i64) -> (r: String)
    requires
        0 <= now <= i64::MAX - 86400,
    ensures
        r@ == spec_token(user_id@, now + 86400, secret@),
{
    let exp = now + 86400;
    let header = String::from_str("{\"alg\":\"HS256\",\"typ\":\"JWT\"}");
    let exp_str = u64_str(exp as u64);
    let claims = String::from_str("{\"sub\":\"").concat(user_id).concat("\",\"exp\":").concat(
        exp_str.as_str(),
    ).concat("}");
    let header64 = b64u_encode(header.as_str().as_bytes());
    let claims64 = b64u_encode(claims.as_str().as_bytes());
    let msg = header64.concat(".").concat(claims64.as_str());
    proof {
        reveal_strlit(".");
        assert(msg@ =~= b64u_encode_from(encode_utf8(header_json()), 0) + seq!['.']
            + b64u_encode_from(encode_utf8(claims_json(user_id@, now + 86400)), 0));
    }
    let sig = hmac_sign(msg.as_str().as_bytes(), secret);
    let r = msg.concat(".").concat(sig.as_str());
    proof {
        assert(r@ =~= spec_token(user_id@, now + 86400, secret@));
    }
    r
}

/// Issues a token for `user_id` from the current clock reading: the
/// token and its expiry, 24 hours ahead. Whatever the clock returned,
/// the token is exactly the one [`spec_token`] lays out for the expiry
/// handed back; `None` only for a clock reading outside 1970 to the
/// representable maximum.
pub fn issue_token(user_id: &str, secret: &[u8]) -> (r: Option<(String, i64)>)
    ensures
        r matches Some(p) ==> 86400 <= p.1 && p.0@ == spec_token(user_id@, p.1 as int, secret@),
{
    let now = now_unix();
    if 0 <= now && now <= i64::MAX - 86400 {
        let token = create_token(user_id, secret, now);
        Some((token, now + 86400))
    } else {
        None
    }
}

/// The first position of `c` at or after `i` in `s`.
pub open spec fn char_index_of(s: Seq<char>, c: char, i: int) -> Option<int>
    recommends
        0 <= i <= s.len(),
    decreases s.len() - i,
{
    if i < 0 || i >= s.len() {
        None
    } else if s[i] == c {
        Some(i)
    } else {
        char_index_of(s, c, i + 1)
    }
}

fn find_char(s: &str, c: char, i: usize) -> (r: Option<usize>)
    requires
        i <= s@.len(),
    ensures
        match r {
            Some(k) => char_index_of(s@, c, i as int) == Some(k as int) && i <= k < s@.len(),
            None => char_index_of(s@, c, i as int) is None,
        },
    decreases s@.len() - i,
{
    let n = s.unicode_len();
    if i >= n {
        None
    } else if s.get_char(i) == c {
        Some(i)
    } else {
        find_char(s, c, i + 1)
    }
}

/// The claims a raw token yields, or `None` when any of its parts
/// fails to check out: the token must be three dot-joined segments,
/// the signature must be the HMAC of the first two, header and claims
/// must decode from base64url to UTF-8 flat JSON objects, the header's
/// `alg` must be `HS256`, and the claims must hold a string `sub` and
/// a whole nonnegative number `exp`. The expiry is not judged here —
/// the claims are handed on as (subject, expiry).
pub open spec fn spec_token_claims(tok: Seq<char>, secret: Seq<u8>) -> Option<(Seq<char>, int)> {
    match char_index_of(tok, '.', 0) {
        None => None,
        Some(p1) => match char_index_of(tok, '.', p1 + 1) {
            None => None,
            Some(p2) => {
                let msg = tok.take(p2);
                let sig = tok.skip(p2 + 1);
                if sig != hs256_sig_of(encode_utf8(msg), secret) {
                    None
                } else {
                    match b64u_decode_from(tok.take(p1), 0) {
                        None => None,
                        Some(hb) => if !valid_utf8(hb) {
                            None
                        } else {
                            match spec_parse_object(decode_utf8(hb)) {
                                None => None,
                                Some(hp) => if field_of(hp, "alg"@) != Some(
                                    JsonValueV::Str("HS256"@),
                                ) {
                                    None
                                } else {
                                    match b64u_decode_from(tok.subrange(p1 + 1, p2), 0) {
                                        None => None,
                                        Some(pb) => if !valid_utf8(pb) {
                                            None
                                        } else {
                                            match spec_parse_object(decode_utf8(pb)) {
                                                None => None,
                                                Some(pp) => match field_of(pp, "sub"@) {
                                                    Some(JsonValueV::Str(sub)) => match field_of(
                                                        pp,
                                                        "exp"@,
                                                    ) {
                                                        Some(JsonValueV::Num(v)) => if v >= 0 && v
                                                            % 100 == 0 {
                                                            Some((sub, v / 100))
                                                        } else {
                                                            None
                                                        },
                                                        _ => None,
                                                    },
                                                    _ => None,
                                                },
                                            }
                                        },
                                    }
                                },
                            }
                        },
                    }
                }
            },
        },
    }
}

/// What [`verify_token`] returns for a header value at time `now`:
/// no header is `Missing`, one without the `Bearer ` prefix is
/// `Malformed`, and after stripping the prefix the token must yield
/// claims as [`spec_token_claims`] describes whose expiry lies
/// strictly after `now`.
pub open spec fn spec_verify_token(h: Option<Seq<char>>, secret: Seq<u8>, now: int) -> Result<
    Seq<char>,
    AuthError,
> {
    match h {
        None => Err(AuthError::Missing),
        Some(hs) => {
            if !(hs.len() >= 7 && hs.subrange(0, 7) == "Bearer "@) {
                Err(AuthError::Malformed)
            } else {
                match spec_token_claims(hs.skip(7), secret) {
                    Some(c) => if c.1 > now {
                        Ok(c.0)
                    } else {
                        Err(AuthError::InvalidOrExpired)
                    },
                    None => Err(AuthError::InvalidOrExpired),
                }
            }
        },
    }
}

/// Checks a bearer credential and yields the caller's subject: the
/// value of the Authorization header (if any) goes in, and the embedded
/// subject comes out exactly when [`spec_verify_token`] says it does.
/// Pure in its inputs — the caller supplies the clock reading.
pub fn verify_token(auth_header: Option<&str>, secret: &[u8], now: i64) -> (r: Result<
    String,
    AuthError,
>)
    ensures
        ({
            let so = spec_verify_token(
                match auth_header {
                    Some(h) => Some(h@),
                    None => None,
                },
                secret@,
                now as int,
            );
            match r {
                Ok(sub) => so == Ok::<Seq<char>, AuthError>(sub@),
                Err(e) => so == Err::<Seq<char>, AuthError>(e),
            }
        }),
{
    let h = match auth_header {
        Some(h) => h,
        None => {
            return Err(AuthError::Missing);
        },
    };
    let n = h.unicode_len();
    if n < 7 {
        return Err(AuthError::Malformed);
    }
    let prefix = h.substring_char(0, 7).to_owned();
    if !(prefix == String::from_str("Bearer ")) {
        return Err(AuthError::Malformed);
    }
    let tok = h.substring_char(7, n);
    proof {
        assert(tok@ =~= h@.skip(7));
    }
    match token_claims(tok, secret) {
        Some(claims) => {
            if claims.exp > now {
                Ok(claims.sub)
            } else {
                Err(AuthError::InvalidOrExpired)
            }
        },
        None => Err(AuthError::InvalidOrExpired),
    }
}

/// Checks one raw token's signature and shape and extracts its claims,
/// exactly as [`spec_token_claims`] describes.
fn token_claims(tok: &str, secret: &[u8]) -> (r: Option<Claims>)
    ensures
        match r {
            Some(c) => spec_token_claims(tok@, secret@) == Some((c.sub@, c.exp as int)),
            None => spec_token_claims(tok@, secret@) is None,
        },
{
    let n = tok.unicode_len();
    let p1 = match find_char(tok, '.', 0) {
        Some(p) => p,
        None => {
            return None;
        },
    };
    let p2 = match find_char(tok, '.', p1 + 1) {
        Some(p) => p,
        None => {
            return None;
        },
    };
    let msg = tok.substring_char(0, p2);
    let sig = tok.substring_char(p2 + 1, n);
    proof {
        assert(msg@ =~= tok@.take(p2 as int));
        assert(sig@ =~= tok@.skip(p2 as int + 1));
    }
    if !hmac_verify(sig, msg.as_bytes(), secret) {
        return None;
    }
    let header_part = tok.substring_char(0, p1);
    proof {
        assert(header_part@ =~= tok@.take(p1 as int));
    }
    let header_bytes = match b64u_decode(header_part) {
        Some(b) => b,
        None => {
            return None;
        },
    };
    let header_text = match utf8_to_string(header_bytes.as_slice()) {
        Some(t) => t,
        None => {
            return None;
        },
    };
    let header_pairs = match parse_object(header_text.as_str()) {
        Some(p) => p,
        None => {
            return None;
        },
    };
    let alg_ok = match field_get(&header_pairs, &String::from_str("alg")) {
        Some(v) => match v {
            JsonValue::Str(a) => *a == String::from_str("HS256"),
            JsonValue::Num(_) => false,
        },
        None => false,
    };
    if !alg_ok {
        return None;
    }
    let claims_part = tok.substring_char(p1 + 1, p2);
    proof {
        assert(claims_part@ =~= tok@.subrange(p1 as int + 1, p2 as int));
    }
    let claims_bytes = match b64u_decode(claims_part) {
        Some(b) => b,
        None => {
            return None;
        },
    };
    let claims_text = match utf8_to_string(claims_bytes.as_slice()) {
        Some(t) => t,
        None => {
            return None;
        },
    };
    let claims_pairs = match parse_object(claims_text.as_str()) {
        Some(p) => p,
        None => {
            return None;
        },
    };
    let sub = match field_get(&claims_pairs, &String::from_str("sub")) {
        Some(v) => match v {
            JsonValue::Str(s) => s.clone(),
            JsonValue::Num(_) => {
                return None;
            },
        },
        None => {
            return None;
        },
    };
    match field_get(&claims_pairs, &String::from_str("exp")) {
        Some(v) => match v {
            JsonValue::Num(cents) => {
                let cents = *cents;
                if cents >= 0 && cents % 100 == 0 {
                    Some(Claims { sub, exp: cents / 100 })
                } else {
                    None
                }
            },
            JsonValue::Str(_) => None,
        },
        None => None,
    }
}

} // verus!
