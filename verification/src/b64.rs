//! Base64url without padding, the textual coat of a bearer token's
//! three segments. Strict in both directions: decoding accepts exactly
//! the canonical encodings — no padding, no stray characters, no
//! nonzero trailing bits — so every byte string has one text form and
//! every accepted text form has one byte string.

use vstd::prelude::*;

verus! {

/// The value of a base64url alphabet character, `-1` for any other
/// character.
pub open spec fn b64u_val(c: char) -> int {
    if 'A' as u32 <= c as u32 <= 'Z' as u32 {
        c as u32 - 'A' as u32
    } else if 'a' as u32 <= c as u32 <= 'z' as u32 {
        26 + (c as u32 - 'a' as u32)
    } else if '0' as u32 <= c as u32 <= '9' as u32 {
        52 + (c as u32 - '0' as u32)
    } else if c == '-' {
        62
    } else if c == '_' {
        63
    } else {
        -1
    }
}

/// The base64url alphabet character for a value in 0..64.
pub open spec fn b64u_char(v: int) -> char
    recommends
        0 <= v < 64,
{
    if v < 26 {
        ('A' as u32 + v) as char
    } else if v < 52 {
        ('a' as u32 + (v - 26)) as char
    } else if v < 62 {
        ('0' as u32 + (v - 52)) as char
    } else if v == 62 {
        '-'
    } else {
        '_'
    }
}

/// The canonical unpadded base64url rendering of `b[i..]`.
pub open spec fn b64u_encode_from(b: Seq<u8>, i: int) -> Seq<char>
    recommends
        0 <= i <= b.len(),
    decreases b.len() - i,
{
    if i < 0 || b.len() - i <= 0 {
        Seq::empty()
    } else if b.len() - i == 1 {
        seq![b64u_char(b[i] as int / 4), b64u_char((b[i] as int % 4) * 16)]
    } else if b.len() - i == 2 {
        seq![
            b64u_char(b[i] as int / 4),
            b64u_char((b[i] as int % 4) * 16 + b[i + 1] as int / 16),
            b64u_char((b[i + 1] as int % 16) * 4),
        ]
    } else {
        seq![
            b64u_char(b[i] as int / 4),
            b64u_char((b[i] as int % 4) * 16 + b[i + 1] as int / 16),
            b64u_char((b[i + 1] as int % 16) * 4 + b[i + 2] as int / 64),
            b64u_char(b[i + 2] as int % 64),
        ] + b64u_encode_from(b, i + 3)
    }
}

/// The bytes whose canonical unpadded base64url rendering is `s[i..]`,
/// or `None` when `s[i..]` is not such a rendering.
pub open spec fn b64u_decode_from(s: Seq<char>, i: int) -> Option<Seq<u8>>
    recommends
        0 <= i <= s.len(),
    decreases s.len() - i,
{
    if i < 0 || s.len() - i <= 0 {
        Some(Seq::empty())
    } else if s.len() - i == 1 {
        None
    } else if s.len() - i == 2 {
        let v0 = b64u_val(s[i]);
        let v1 = b64u_val(s[i + 1]);
        if v0 >= 0 && v1 >= 0 && v1 % 16 == 0 {
            Some(seq![(v0 * 4 + v1 / 16) as u8])
        } else {
            None
        }
    } else if s.len() - i == 3 {
        let v0 = b64u_val(s[i]);
        let v1 = b64u_val(s[i + 1]);
        let v2 = b64u_val(s[i + 2]);
        if v0 >= 0 && v1 >= 0 && v2 >= 0 && v2 % 4 == 0 {
            Some(seq![(v0 * 4 + v1 / 16) as u8, ((v1 % 16) * 16 + v2 / 4) as u8])
        } else {
            None
        }
    } else {
        let v0 = b64u_val(s[i]);
        let v1 = b64u_val(s[i + 1]);
        let v2 = b64u_val(s[i + 2]);
        let v3 = b64u_val(s[i + 3]);
        if v0 >= 0 && v1 >= 0 && v2 >= 0 && v3 >= 0 {
            match b64u_decode_from(s, i + 4) {
                Some(rest) => Some(
                    seq![
                        (v0 * 4 + v1 / 16) as u8,
                        ((v1 % 16) * 16 + v2 / 4) as u8,
                        ((v2 % 4) * 64 + v3) as u8,
                    ] + rest,
                ),
                None => None,
            }
        } else {
            None
        }
    }
}

/// One alphabet character as a one-character string slice.
fn b64u_char_str(v: u8) -> (r: &'static str)
    requires
        v < 64,
    ensures
        r@ =~= seq![b64u_char(v as int)],
{
    let alphabet = "ABCDEFGHIJKLMNOPQRSTUVWXYZabcdefghijklmnopqrstuvwxyz0123456789-_";
    proof {
        reveal_strlit("ABCDEFGHIJKLMNOPQRSTUVWXYZabcdefghijklmnopqrstuvwxyz0123456789-_");
    }
    alphabet.substring_ascii(v as usize, v as usize + 1)
}

fn b64u_encode_at(b: &[u8], i: usize) -> (r: String)
    requires
        i <= b@.len(),
    ensures
        r@ == b64u_encode_from(b@, i as int),
    decreases b@.len() - i,
{
    let n = b.len();
    if i >= n {
        let r = String::new();
        proof {
            assert(r@ =~= b64u_encode_from(b@, i as int));
        }
        r
    } else if n - i == 1 {
        let c0 = b64u_char_str(b[i] / 4);
        let c1 = b64u_char_str((b[i] % 4) * 16);
        let r = c0.to_owned().concat(c1);
        proof {
            assert(r@ =~= b64u_encode_from(b@, i as int));
        }
        r
    } else if n - i == 2 {
        let c0 = b64u_char_str(b[i] / 4);
        let c1 = b64u_char_str((b[i] % 4) * 16 + b[i + 1] / 16);
        let c2 = b64u_char_str((b[i + 1] % 16) * 4);
        let r = c0.to_owned().concat(c1).concat(c2);
        proof {
            assert(r@ =~= b64u_encode_from(b@, i as int));
        }
        r
    } else {
        let c0 = b64u_char_str(b[i] / 4);
        let c1 = b64u_char_str((b[i] % 4) * 16 + b[i + 1] / 16);
        let c2 = b64u_char_str((b[i + 1] % 16) * 4 + b[i + 2] / 64);
        let c3 = b64u_char_str(b[i + 2] % 64);
        let rest = b64u_encode_at(b, i + 3);
        let r = c0.to_owned().concat(c1).concat(c2).concat(c3).concat(rest.as_str());
        proof {
            assert(r@ =~= b64u_encode_from(b@, i as int));
        }
        r
    }
}

/// Encodes bytes as unpadded base64url text.
pub fn b64u_encode(b: &[u8]) -> (r: String)
    ensures
        r@ == b64u_encode_from(b@, 0),
{
    b64u_encode_at(b, 0)
}

/// The value of one character, `None` outside the alphabet.
fn b64u_val_of(c: char) -> (r: Option<u8>)
    ensures
        match r {
            Some(v) => b64u_val(c) == v as int && v < 64,
            None => b64u_val(c) == -1,
        },
{
    let u = c as u32;
    if 'A' as u32 <= u && u <= 'Z' as u32 {
        Some((u - 'A' as u32) as u8)
    } else if 'a' as u32 <= u && u <= 'z' as u32 {
        Some((26 + (u - 'a' as u32)) as u8)
    } else if '0' as u32 <= u && u <= '9' as u32 {
        Some((52 + (u - '0' as u32)) as u8)
    } else if c == '-' {
        Some(62)
    } else if c == '_' {
        Some(63)
    } else {
        None
    }
}

fn b64u_decode_at(s: &str, i: usize) -> (r: Option<Vec<u8>>)
    requires
        i <= s@.len(),
    ensures
        match r {
            Some(bytes) => b64u_decode_from(s@, i as int) == Some(bytes@),
            None => b64u_decode_from(s@, i as int) is None,
        },
    decreases s@.len() - i,
{
    let n = s.unicode_len();
    if i >= n {
        let out: Vec<u8> = Vec::new();
        proof {
            assert(out@ =~= Seq::<u8>::empty());
        }
        Some(out)
    } else if n - i == 1 {
        None
    } else if n - i == 2 {
        let v0 = match b64u_val_of(s.get_char(i)) {
            Some(v) => v,
            None => {
                return None;
            },
        };
        let v1 = match b64u_val_of(s.get_char(i + 1)) {
            Some(v) => v,
            None => {
                return None;
            },
        };
        if v1 % 16 == 0 {
            let mut out: Vec<u8> = Vec::new();
            out.push(v0 * 4 + v1 / 16);
            proof {
                assert(out@ =~= seq![(b64u_val(s@[i as int]) * 4 + b64u_val(s@[i as int + 1]) / 16) as u8]);
            }
            Some(out)
        } else {
            None
        }
    } else if n - i == 3 {
        let v0 = match b64u_val_of(s.get_char(i)) {
            Some(v) => v,
            None => {
                return None;
            },
        };
        let v1 = match b64u_val_of(s.get_char(i + 1)) {
            Some(v) => v,
            None => {
                return None;
            },
        };
        let v2 = match b64u_val_of(s.get_char(i + 2)) {
            Some(v) => v,
            None => {
                return None;
            },
        };
        if v2 % 4 == 0 {
            let mut out: Vec<u8> = Vec::new();
            out.push(v0 * 4 + v1 / 16);
            out.push((v1 % 16) * 16 + v2 / 4);
            proof {
                assert(out@ =~= b64u_decode_from(s@, i as int).unwrap());
            }
            Some(out)
        } else {
            None
        }
    } else {
        let v0 = match b64u_val_of(s.get_char(i)) {
            Some(v) => v,
            None => {
                return None;
            },
        };
        let v1 = match b64u_val_of(s.get_char(i + 1)) {
            Some(v) => v,
            None => {
                return None;
            },
        };
        let v2 = match b64u_val_of(s.get_char(i + 2)) {
            Some(v) => v,
            None => {
                return None;
            },
        };
        let v3 = match b64u_val_of(s.get_char(i + 3)) {
            Some(v) => v,
            None => {
                return None;
            },
        };
        match b64u_decode_at(s, i + 4) {
            Some(mut rest) => {
                let mut out: Vec<u8> = Vec::new();
                out.push(v0 * 4 + v1 / 16);
                out.push((v1 % 16) * 16 + v2 / 4);
                out.push((v2 % 4) * 64 + v3);
                let ghost head = out@;
                out.append(&mut rest);
                proof {
                    assert(out@ =~= head + b64u_decode_from(s@, i as int + 4).unwrap());
                    assert(out@ =~= b64u_decode_from(s@, i as int).unwrap());
                }
                Some(out)
            },
            None => None,
        }
    }
}

/// Decodes unpadded base64url text; `None` unless the whole input is a
/// canonical encoding.
pub fn b64u_decode(s: &str) -> (r: Option<Vec<u8>>)
    ensures
        match r {
            Some(bytes) => b64u_decode_from(s@, 0) == Some(bytes@),
            None => b64u_decode_from(s@, 0) is None,
        },
{
    b64u_decode_at(s, 0)
}

} // verus!
