//! A fail-closed parser for the flat JSON objects this service
//! exchanges: one object whose members are strings or plain scale-2
//! decimal numbers, such as a QR payment payload or the claims of a
//! bearer token. Anything outside that shape — escapes, nesting,
//! exponents, more than two fraction digits — is rejected.
//!
//! Numbers are read as exact fixed-point cents (`30` parses to `3000`),
//! so no floating point touches an amount.

use vstd::prelude::*;
use crate::money::{digit_run_end, digits_val};

verus! {

/// A parsed member value: a string, or a number in cents.
pub enum JsonValue {
    Str(String),
    Num(i64),
}

/// Mathematical image of a [`JsonValue`].
#[verifier::ext_equal]
pub enum JsonValueV {
    Str(Seq<char>),
    Num(int),
}

impl View for JsonValue {
    type V = JsonValueV;

    open spec fn view(&self) -> JsonValueV {
        match self {
            JsonValue::Str(s) => JsonValueV::Str(s@),
            JsonValue::Num(n) => JsonValueV::Num(*n as int),
        }
    }
}

/// JSON whitespace.
pub open spec fn is_ws(c: char) -> bool {
    c == ' ' || c == '\t' || c == '\n' || c == '\r'
}

/// The first index at or after `i` holding a non-whitespace character
/// (`s.len()` when only whitespace remains).
pub open spec fn skip_ws(s: Seq<char>, i: int) -> int
    recommends
        0 <= i <= s.len(),
    decreases s.len() - i,
{
    if i < 0 || i >= s.len() {
        s.len() as int
    } else if is_ws(s[i]) {
        skip_ws(s, i + 1)
    } else {
        i
    }
}

/// The index of the closing quote of string content starting at `i`,
/// scanning forward; `None` if a backslash or the end of input comes
/// first. Escapes are rejected rather than interpreted.
pub open spec fn str_content_end(s: Seq<char>, i: int) -> Option<int>
    recommends
        0 <= i <= s.len(),
    decreases s.len() - i,
{
    if i < 0 || i >= s.len() {
        None
    } else if s[i] == '"' {
        Some(i)
    } else if s[i] == '\\' {
        None
    } else {
        str_content_end(s, i + 1)
    }
}

/// The cents value and end position of the number starting at `i`: an
/// optional minus sign, one to twelve integer digits, and optionally a
/// point with one or two fraction digits.
pub open spec fn num_span(s: Seq<char>, i: int) -> Option<(int, int)>
    recommends
        0 <= i <= s.len(),
{
    let neg = i < s.len() && s[i] == '-';
    let j = if neg {
        i + 1
    } else {
        i
    };
    let d = digit_run_end(s, j);
    if d == j || d - j > 12 {
        None
    } else if d < s.len() && s[d] == '.' {
        let e = digit_run_end(s, d + 1);
        if d + 1 < e && e - d <= 3 {
            let v = digits_val(s, j, d) * 100 + if e == d + 2 {
                (s[d + 1] as u32 - '0' as u32) * 10
            } else {
                (s[d + 1] as u32 - '0' as u32) * 10 + (s[d + 2] as u32 - '0' as u32)
            };
            Some(
                (
                    if neg {
                        -v
                    } else {
                        v
                    },
                    e,
                ),
            )
        } else {
            None
        }
    } else {
        let v = digits_val(s, j, d) * 100;
        Some(
            (
                if neg {
                    -v
                } else {
                    v
                },
                d,
            ),
        )
    }
}

/// The value starting at `i` — a quoted string without escapes, or a
/// number — and the position just past it.
pub open spec fn value_span(s: Seq<char>, i: int) -> Option<(JsonValueV, int)>
    recommends
        0 <= i <= s.len(),
{
    if i < s.len() && s[i] == '"' {
        match str_content_end(s, i + 1) {
            Some(e) => Some((JsonValueV::Str(s.subrange(i + 1, e)), e + 1)),
            None => None,
        }
    } else {
        match num_span(s, i) {
            Some((v, e)) => Some((JsonValueV::Num(v), e)),
            None => None,
        }
    }
}

/// The member starting at `i` (whitespace, quoted key, colon, value)
/// and the position just past its value.
pub open spec fn member_span(s: Seq<char>, i: int) -> Option<((Seq<char>, JsonValueV), int)>
    recommends
        0 <= i <= s.len(),
{
    let k = skip_ws(s, i);
    if k < s.len() && s[k] == '"' {
        match str_content_end(s, k + 1) {
            Some(e) => {
                let key = s.subrange(k + 1, e);
                let c = skip_ws(s, e + 1);
                if c < s.len() && s[c] == ':' {
                    let v = skip_ws(s, c + 1);
                    match value_span(s, v) {
                        Some((val, end)) => Some(((key, val), end)),
                        None => None,
                    }
                } else {
                    None
                }
            },
            None => None,
        }
    } else {
        None
    }
}

/// The members from `i` up to and including the closing brace, and the
/// position just past the brace. `fuel` only bounds the recursion; a
/// member always consumes at least one character, so a call with
/// `fuel >= s.len() - i` never runs out.
pub open spec fn members_span(s: Seq<char>, i: int, fuel: nat) -> Option<
    (Seq<(Seq<char>, JsonValueV)>, int),
>
    recommends
        0 <= i <= s.len(),
    decreases fuel,
{
    if fuel == 0 {
        None
    } else {
        match member_span(s, i) {
            None => None,
            Some((m, end)) => {
                let t = skip_ws(s, end);
                if t < s.len() && s[t] == ',' {
                    match members_span(s, t + 1, (fuel - 1) as nat) {
                        Some((rest, end2)) => Some((seq![m] + rest, end2)),
                        None => None,
                    }
                } else if t < s.len() && s[t] == '}' {
                    Some((seq![m], t + 1))
                } else {
                    None
                }
            },
        }
    }
}

/// The members of the whole input parsed as one flat object, `None`
/// when the input is not such an object.
pub open spec fn spec_parse_object(s: Seq<char>) -> Option<Seq<(Seq<char>, JsonValueV)>> {
    let i = skip_ws(s, 0);
    if i < s.len() && s[i] == '{' {
        let j = skip_ws(s, i + 1);
        if j < s.len() && s[j] == '}' {
            if skip_ws(s, j + 1) == s.len() {
                Some(Seq::empty())
            } else {
                None
            }
        } else {
            match members_span(s, i + 1, s.len()) {
                Some((pairs, end)) => {
                    if skip_ws(s, end) == s.len() {
                        Some(pairs)
                    } else {
                        None
                    }
                },
                None => None,
            }
        }
    } else {
        None
    }
}

/// The value of the member named `key`, the last occurrence winning;
/// `None` when no member has that key.
pub open spec fn field_of(pairs: Seq<(Seq<char>, JsonValueV)>, key: Seq<char>) -> Option<JsonValueV>
    decreases pairs.len(),
{
    if pairs.len() == 0 {
        None
    } else if pairs.last().0 == key {
        Some(pairs.last().1)
    } else {
        field_of(pairs.drop_last(), key)
    }
}

/// The view of a parsed member list.
pub open spec fn pairs_view(pairs: Seq<(String, JsonValue)>) -> Seq<(Seq<char>, JsonValueV)> {
    pairs.map_values(|p: (String, JsonValue)| (p.0@, p.1@))
}

fn skip_ws_at(s: &str, i: usize) -> (r: usize)
    requires
        i <= s@.len(),
    ensures
        r == skip_ws(s@, i as int),
        i <= r <= s@.len(),
        r < s@.len() ==> !is_ws(s@[r as int]),
    decreases s@.len() - i,
{
    let n = s.unicode_len();
    if i >= n {
        n
    } else {
        let c = s.get_char(i);
        if c == ' ' || c == '\t' || c == '\n' || c == '\r' {
            skip_ws_at(s, i + 1)
        } else {
            i
        }
    }
}

fn find_str_end(s: &str, i: usize) -> (r: Option<usize>)
    requires
        i <= s@.len(),
    ensures
        match r {
            Some(e) => str_content_end(s@, i as int) == Some(e as int) && i <= e < s@.len(),
            None => str_content_end(s@, i as int) is None,
        },
    decreases s@.len() - i,
{
    let n = s.unicode_len();
    if i >= n {
        None
    } else {
        let c = s.get_char(i);
        if c == '"' {
            Some(i)
        } else if c == '\\' {
            None
        } else {
            find_str_end(s, i + 1)
        }
    }
}

fn parse_num(s: &str, i: usize) -> (r: Option<(i64, usize)>)
    requires
        i <= s@.len(),
    ensures
        match r {
            Some(p) => num_span(s@, i as int) == Some((p.0 as int, p.1 as int)) && i <= p.1
                <= s@.len(),
            None => num_span(s@, i as int) is None,
        },
{
    let n = s.unicode_len();
    let neg = i < n && s.get_char(i) == '-';
    let j = if neg {
        i + 1
    } else {
        i
    };
    let d = crate::money::find_digit_run_end(s, j);
    if d == j || d - j > 12 {
        None
    } else if d < n && s.get_char(d) == '.' {
        let e = crate::money::find_digit_run_end(s, d + 1);
        if d + 1 < e && e - d <= 3 {
            let whole = crate::money::digits_value(s, j, d);
            let frac: u64 = if e == d + 2 {
                (s.get_char(d + 1) as u32 - '0' as u32) as u64 * 10
            } else {
                (s.get_char(d + 1) as u32 - '0' as u32) as u64 * 10 + (s.get_char(d + 2) as u32
                    - '0' as u32) as u64
            };
            let v = (whole as i64) * 100 + (frac as i64);
            Some((if neg { -v } else { v }, e))
        } else {
            None
        }
    } else {
        let whole = crate::money::digits_value(s, j, d);
        let v = (whole as i64) * 100;
        Some((if neg { -v } else { v }, d))
    }
}

fn parse_value(s: &str, i: usize) -> (r: Option<(JsonValue, usize)>)
    requires
        i <= s@.len(),
    ensures
        match r {
            Some(p) => value_span(s@, i as int) == Some((p.0@, p.1 as int)) && i <= p.1 <= s@.len(),
            None => value_span(s@, i as int) is None,
        },
{
    let n = s.unicode_len();
    if i < n && s.get_char(i) == '"' {
        match find_str_end(s, i + 1) {
            Some(e) => {
                let content = s.substring_char(i + 1, e).to_owned();
                Some((JsonValue::Str(content), e + 1))
            },
            None => None,
        }
    } else {
        match parse_num(s, i) {
            Some((v, e)) => Some((JsonValue::Num(v), e)),
            None => None,
        }
    }
}

fn parse_member(s: &str, i: usize) -> (r: Option<((String, JsonValue), usize)>)
    requires
        i <= s@.len(),
    ensures
        match r {
            Some(p) => member_span(s@, i as int) == Some((((p.0).0@, (p.0).1@), p.1 as int)) && i
                <= p.1 <= s@.len(),
            None => member_span(s@, i as int) is None,
        },
{
    let k = skip_ws_at(s, i);
    let n = s.unicode_len();
    if k < n && s.get_char(k) == '"' {
        match find_str_end(s, k + 1) {
            Some(e) => {
                let key = s.substring_char(k + 1, e).to_owned();
                let c = skip_ws_at(s, e + 1);
                if c < n && s.get_char(c) == ':' {
                    let v = skip_ws_at(s, c + 1);
                    match parse_value(s, v) {
                        Some((val, end)) => Some(((key, val), end)),
                        None => None,
                    }
                } else {
                    None
                }
            },
            None => None,
        }
    } else {
        None
    }
}

fn parse_members(s: &str, i: usize, fuel: usize) -> (r: Option<(Vec<(String, JsonValue)>, usize)>)
    requires
        i <= s@.len(),
    ensures
        match r {
            Some(p) => members_span(s@, i as int, fuel as nat) == Some(
                (pairs_view(p.0@), p.1 as int),
            ) && p.1 <= s@.len(),
            None => members_span(s@, i as int, fuel as nat) is None,
        },
    decreases fuel,
{
    if fuel == 0 {
        return None;
    }
    let m = match parse_member(s, i) {
        Some(p) => p,
        None => {
            return None;
        },
    };
    let end = m.1;
    let t = skip_ws_at(s, end);
    let n = s.unicode_len();
    if t < n && s.get_char(t) == ',' {
        match parse_members(s, t + 1, fuel - 1) {
            Some((rest, end2)) => {
                let mut out: Vec<(String, JsonValue)> = Vec::new();
                out.push(m.0);
                let mut rest = rest;
                out.append(&mut rest);
                proof {
                    let sm = member_span(s@, i as int).unwrap();
                    assert(pairs_view(out@) =~= seq![sm.0] + members_span(
                        s@,
                        t + 1,
                        (fuel - 1) as nat,
                    ).unwrap().0);
                }
                Some((out, end2))
            },
            None => None,
        }
    } else if t < n && s.get_char(t) == '}' {
        let mut out: Vec<(String, JsonValue)> = Vec::new();
        out.push(m.0);
        proof {
            let sm = member_span(s@, i as int).unwrap();
            assert(pairs_view(out@) =~= seq![sm.0]);
        }
        Some((out, t + 1))
    } else {
        None
    }
}

/// Parses the whole input as one flat JSON object of string and
/// number members, exactly as [`spec_parse_object`] describes;
/// `None` when the input is not such an object.
pub fn parse_object(s: &str) -> (r: Option<Vec<(String, JsonValue)>>)
    ensures
        match r {
            Some(pairs) => spec_parse_object(s@) == Some(pairs_view(pairs@)),
            None => spec_parse_object(s@) is None,
        },
{
    let n = s.unicode_len();
    let i = skip_ws_at(s, 0);
    if i < n && s.get_char(i) == '{' {
        let j = skip_ws_at(s, i + 1);
        if j < n && s.get_char(j) == '}' {
            if skip_ws_at(s, j + 1) == n {
                let out: Vec<(String, JsonValue)> = Vec::new();
                proof {
                    assert(pairs_view(out@) =~= Seq::<(Seq<char>, JsonValueV)>::empty());
                }
                Some(out)
            } else {
                None
            }
        } else {
            match parse_members(s, i + 1, n) {
                Some((pairs, end)) => {
                    if skip_ws_at(s, end) == n {
                        Some(pairs)
                    } else {
                        None
                    }
                },
                None => None,
            }
        }
    } else {
        None
    }
}

fn field_get_from<'a>(pairs: &'a Vec<(String, JsonValue)>, key: &String, upto: usize) -> (r: Option<
    &'a JsonValue,
>)
    requires
        upto <= pairs@.len(),
    ensures
        match r {
            Some(v) => field_of(pairs_view(pairs@).take(upto as int), key@) == Some(v@),
            None => field_of(pairs_view(pairs@).take(upto as int), key@) is None,
        },
    decreases upto,
{
    if upto == 0 {
        None
    } else {
        proof {
            assert(pairs_view(pairs@).take(upto as int).last() == (
                pairs@[upto - 1].0@,
                pairs@[upto - 1].1@,
            ));
            assert(pairs_view(pairs@).take(upto as int).drop_last() =~= pairs_view(pairs@).take(
                upto - 1,
            ));
        }
        if pairs[upto - 1].0 == *key {
            Some(&pairs[upto - 1].1)
        } else {
            field_get_from(pairs, key, upto - 1)
        }
    }
}

/// Looks up the member named `key` in a parsed object, the last
/// occurrence winning.
pub fn field_get<'a>(pairs: &'a Vec<(String, JsonValue)>, key: &String) -> (r: Option<
    &'a JsonValue,
>)
    ensures
        match r {
            Some(v) => field_of(pairs_view(pairs@), key@) == Some(v@),
            None => field_of(pairs_view(pairs@), key@) is None,
        },
{
    let n = pairs.len();
    proof {
        assert(pairs_view(pairs@).take(n as int) =~= pairs_view(pairs@));
    }
    field_get_from(pairs, key, n)
}

} // verus!
