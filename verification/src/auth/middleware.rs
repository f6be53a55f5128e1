//! Request authentication. The token comes from the
//! `Authorization: Bearer <token>` header, or, for EventSource clients
//! that cannot attach headers, from the `?token=` query parameter; its
//! hash must belong to a user.

use vstd::prelude::*;
use vstd::string::StringSliceAdditionalSpecFns;

use crate::db::users::User;
use crate::text::{push_char, str_eq};
use vstd::string::StrSliceExecFns;

verus! {

/// Injected into handlers that require authentication.
#[derive(Debug, Clone)]
pub struct AuthedUser(pub User);

/// Rejection produced when a request carries no usable token.
#[derive(Debug)]
pub struct AuthError(pub String);

/// Value of an ASCII hex digit, if `b` is one.
pub open spec fn nibble(b: u8) -> Option<u8> {
    if 48 <= b <= 57 {
        Some((b - 48) as u8)
    } else if 97 <= b <= 102 {
        Some((b - 97 + 10) as u8)
    } else if 65 <= b <= 70 {
        Some((b - 65 + 10) as u8)
    } else {
        None
    }
}

/// Minimal percent-decoding of a byte string: `%XY` with two hex
/// digits becomes the character with code `0xXY`, `+` becomes a
/// space, and every other byte becomes the character with that code.
pub open spec fn pct_decode(b: Seq<u8>) -> Seq<char>
    decreases b.len(),
{
    if b.len() == 0 {
        Seq::empty()
    } else if b[0] == 37u8 && 2 < b.len() && nibble(b[1]) is Some && nibble(b[2]) is Some {
        seq![((nibble(b[1])->0 * 16 + nibble(b[2])->0) as u8) as char] + pct_decode(b.subrange(3, b.len() as int))
    } else if b[0] == 43u8 {
        seq![' '] + pct_decode(b.drop_first())
    } else {
        seq![b[0] as char] + pct_decode(b.drop_first())
    }
}

/// Position of the first `c` in `s`, or `s.len()` when there is none.
pub open spec fn index_of(s: Seq<u8>, c: u8) -> int
    decreases s.len(),
{
    if s.len() == 0 {
        0
    } else if s[0] == c {
        0
    } else {
        1 + index_of(s.drop_first(), c)
    }
}

/// The bytes of `token`.
pub open spec fn token_key() -> Seq<u8> {
    seq![116u8, 111u8, 107u8, 101u8, 110u8]
}

/// The `token` parameter of a raw query string: the `&`-separated
/// pairs are scanned in order, a pair without `=` is passed over, and
/// the first pair whose key is `token` yields its percent-decoded
/// value.
pub open spec fn token_in_query(q: Seq<u8>) -> Option<Seq<char>>
    decreases q.len(),
{
    let amp = index_of(q, 38u8);
    let pair = q.subrange(0, amp);
    let eq = index_of(pair, 61u8);
    if eq < pair.len() && pair.subrange(0, eq) == token_key() {
        Some(pct_decode(pair.subrange(eq + 1, pair.len() as int)))
    } else if amp >= q.len() {
        None
    } else {
        proof {
            lemma_index_of_bounds(q, 38u8);
        }
        token_in_query(q.subrange(amp + 1, q.len() as int))
    }
}

/// Bounds and meaning of `index_of`.
pub proof fn lemma_index_of_bounds(s: Seq<u8>, c: u8)
    ensures
        0 <= index_of(s, c) <= s.len(),
        index_of(s, c) < s.len() ==> s[index_of(s, c)] == c,
        forall|j: int| 0 <= j < index_of(s, c) ==> s[j] != c,
    decreases s.len(),
{
    if s.len() > 0 && s[0] != c {
        lemma_index_of_bounds(s.drop_first(), c);
        assert forall|j: int| 0 <= j < index_of(s, c) implies s[j] != c by {
            if j > 0 {
                assert(s[j] == s.drop_first()[j - 1]);
            }
        }
    }
}

proof fn lemma_index_of_at(s: Seq<u8>, c: u8, k: int)
    requires
        0 <= k <= s.len(),
        k < s.len() ==> s[k] == c,
        forall|j: int| 0 <= j < k ==> s[j] != c,
    ensures
        index_of(s, c) == k,
    decreases s.len(),
{
    if s.len() > 0 && k > 0 {
        assert forall|j: int| 0 <= j < k - 1 implies s.drop_first()[j] != c by {
            assert(s.drop_first()[j] == s[j + 1]);
        }
        lemma_index_of_at(s.drop_first(), c, k - 1);
    }
}

/// The `token=` prefix.
pub open spec fn token_prefix() -> Seq<u8> {
    token_key() + seq![61u8]
}

/// A query string whose first pair is `token=v` yields the
/// percent-decoded `v`, and only `v`: a `&` ends the value, and what
/// follows it never enters the token.
pub proof fn law_token_value_ends_at_ampersand(v: Seq<u8>, rest: Seq<u8>)
    requires
        !v.contains(38u8),
    ensures
        token_in_query(token_prefix() + v + seq![38u8] + rest) == Some(pct_decode(v)),
        token_in_query(token_prefix() + v) == Some(pct_decode(v)),
{
    let head = token_prefix() + v;
    assert(head.len() == 6 + v.len());
    assert forall|j: int| 0 <= j < head.len() implies head[j] != 38u8 by {
        if j >= 6 {
            assert(head[j] == v[j - 6]);
        }
    }
    assert forall|j: int| 0 <= j < 5 implies head[j] != 61u8 by {}
    let q = head + seq![38u8] + rest;
    lemma_index_of_at(q, 38u8, head.len() as int);
    assert(q.subrange(0, head.len() as int) =~= head);
    lemma_index_of_at(head, 61u8, 5);
    assert(head.subrange(0, 5) =~= token_key());
    assert(head.subrange(6, head.len() as int) =~= v);
    lemma_index_of_at(head, 38u8, head.len() as int);
    assert(head.subrange(0, head.len() as int) =~= head);
}

/// A pair that is not the token's (it does not begin with `token=`,
/// including a pair with no `=` at all) is passed over: the answer is
/// that of the pairs after it.
pub proof fn law_other_pair_passed_over(pair: Seq<u8>, rest: Seq<u8>)
    requires
        !pair.contains(38u8),
        !(pair.len() >= 6 && pair.subrange(0, 6) == token_prefix()),
    ensures
        token_in_query(pair + seq![38u8] + rest) == token_in_query(rest),
{
    let q = pair + seq![38u8] + rest;
    assert forall|j: int| 0 <= j < pair.len() implies q[j] != 38u8 by {
        assert(q[j] == pair[j]);
    }
    lemma_index_of_at(q, 38u8, pair.len() as int);
    assert(q.subrange(0, pair.len() as int) =~= pair);
    lemma_index_of_bounds(pair, 61u8);
    let eq = index_of(pair, 61u8);
    if eq < pair.len() && pair.subrange(0, eq) == token_key() {
        assert(pair.subrange(0, eq).len() == 5);
        assert(pair.subrange(0, 6) =~= token_prefix()) by {
            assert forall|j: int| 0 <= j < 6 implies pair.subrange(0, 6)[j] == token_prefix()[j] by {
                if j < 5 {
                    assert(pair.subrange(0, eq)[j] == token_key()[j]);
                }
            }
        }
    }
    assert(q.subrange(pair.len() as int + 1, q.len() as int) =~= rest);
}

/// Value of the ASCII hex digit `b`, or `None`.
pub fn hex_nibble(b: u8) -> (r: Option<u8>)
    ensures
        r == nibble(b),
{
    if 48u8 <= b && b <= 57u8 {
        Some(b - 48u8)
    } else if 97u8 <= b && b <= 102u8 {
        Some(b - 97u8 + 10u8)
    } else if 65u8 <= b && b <= 70u8 {
        Some(b - 65u8 + 10u8)
    } else {
        None
    }
}

/// Percent-decodes `b[from..to]`.
fn decode_range(b: &[u8], from: usize, to: usize) -> (r: String)
    requires
        from <= to <= b@.len(),
    ensures
        r@ == pct_decode(b@.subrange(from as int, to as int)),
{
    let mut out = String::new();
    let mut i: usize = from;
    while i < to
        invariant
            from <= i <= to <= b@.len(),
            out@ + pct_decode(b@.subrange(i as int, to as int)) == pct_decode(b@.subrange(from as int, to as int)),
        decreases to - i,
    {
        let ghost rest = b@.subrange(i as int, to as int);
        if b[i] == 37u8 && to - i > 2 {
            let h = hex_nibble(b[i + 1]);
            let l = hex_nibble(b[i + 2]);
            if h.is_some() && l.is_some() {
                let hv = h.unwrap();
                let lv = l.unwrap();
                let code: u8 = hv * 16u8 + lv;
                push_char(&mut out, code as char);
                proof {
                    assert(rest[1] == b@[i + 1] && rest[2] == b@[i + 2]);
                    assert(rest.subrange(3, rest.len() as int) =~= b@.subrange(i + 3, to as int));
                    assert(out@ =~= out@.drop_last() + seq![(code as char)]);
                }
                i = i + 3;
                continue;
            }
        }
        proof {
            assert(rest.drop_first() =~= b@.subrange(i + 1, to as int));
            assert(rest[0] == b@[i as int]);
            if b@[i as int] == 37u8 && 2 < rest.len() {
                assert(rest[1] == b@[i + 1] && rest[2] == b@[i + 2]);
            }
        }
        if b[i] == 43u8 {
            push_char(&mut out, ' ');
        } else {
            push_char(&mut out, b[i] as char);
        }
        i = i + 1;
    }
    out
}

/// Minimal percent-decoding of `s`: `%XY` (two hex digits) becomes
/// the character with code `0xXY`, `+` becomes a space, and every
/// other byte is kept as the character with the same code.
pub fn percent_decode_minimal(s: &str) -> (r: String)
    ensures
        r@ == pct_decode(s.spec_bytes()),
{
    let b = s.as_bytes();
    assert(b@.subrange(0, b@.len() as int) =~= b@);
    decode_range(b, 0, b.len())
}

/// First index `j` in `from..to` with `b[j] == c`, or `to`.
fn find_byte(b: &[u8], c: u8, from: usize, to: usize) -> (r: usize)
    requires
        from <= to <= b@.len(),
    ensures
        from <= r <= to,
        r - from == index_of(b@.subrange(from as int, to as int), c),
{
    let mut j: usize = from;
    while j < to && b[j] != c
        invariant
            from <= j <= to <= b@.len(),
            forall|k: int| from <= k < j ==> b@[k] != c,
        decreases to - j,
    {
        j = j + 1;
    }
    proof {
        lemma_index_of_at(b@.subrange(from as int, to as int), c, j - from);
    }
    j
}

/// Extracts and decodes the `token` parameter from a raw query
/// string. A pair without `=` is passed over.
pub fn token_from_query(q: &str) -> (r: Option<String>)
    ensures
        token_in_query(q.spec_bytes()) == match r {
            Some(t) => Some(t@),
            None => None,
        },
{
    let b = q.as_bytes();
    let n = b.len();
    let mut start: usize = 0;
    assert(b@.subrange(0, n as int) =~= b@);
    while start <= n
        invariant
            b@ == q.spec_bytes(),
            n == b@.len(),
            start <= n,
            token_in_query(b@.subrange(start as int, n as int)) == token_in_query(b@),
        decreases n - start,
    {
        let ghost qs = b@.subrange(start as int, n as int);
        let amp = find_byte(b, 38u8, start, n);
        let eq = find_byte(b, 61u8, start, amp);
        proof {
            assert(index_of(qs, 38u8) == amp - start);
            assert(qs.subrange(0, amp - start) =~= b@.subrange(start as int, amp as int));
            assert(index_of(qs.subrange(0, index_of(qs, 38u8)), 61u8) == eq - start);
        }
        let is_token = eq < amp && eq - start == 5 && b[start] == 116u8 && b[start + 1] == 111u8
            && b[start + 2] == 107u8 && b[start + 3] == 101u8 && b[start + 4] == 110u8;
        proof {
            let pair = b@.subrange(start as int, amp as int);
            let key = pair.subrange(0, eq - start);
            if is_token {
                assert(key =~= token_key());
            } else if key.len() == 5 && eq < amp {
                assert(key != token_key()) by {
                    if key == token_key() {
                        assert(key[0] == b@[start as int]);
                        assert(key[1] == b@[start + 1]);
                        assert(key[2] == b@[start + 2]);
                        assert(key[3] == b@[start + 3]);
                        assert(key[4] == b@[start + 4]);
                    }
                }
            }
            if eq < amp {
                assert(pair.subrange(eq - start + 1, pair.len() as int) =~= b@.subrange(eq + 1, amp as int));
            }
        }
        if is_token {
            let v = decode_range(b, eq + 1, amp);
            return Some(v);
        }
        if amp == n {
            proof {
                assert(index_of(qs, 38u8) >= qs.len());
                assert(token_in_query(qs) is None);
            }
            return None;
        }
        proof {
            assert(qs.subrange(amp - start + 1, qs.len() as int) =~= b@.subrange(amp + 1, n as int));
        }
        start = amp + 1;
    }
    None
}

/// The token of an `Authorization` header value: what follows the
/// `Bearer ` prefix, when the value has it.
pub open spec fn bearer_value(h: Seq<char>) -> Option<Seq<char>> {
    if h.len() >= 7 && h.subrange(0, 7) == "Bearer "@ {
        Some(h.subrange(7, h.len() as int))
    } else {
        None
    }
}

/// The token of an `Authorization` header value, if it is a bearer
/// credential.
pub fn bearer_token(h: &str) -> (r: Option<String>)
    ensures
        crate::text::opt_chars(r) == bearer_value(h@),
{
    let n = h.unicode_len();
    if n < 7 {
        return None;
    }
    let prefix = h.substring_char(0, 7);
    if !str_eq(prefix, "Bearer ") {
        return None;
    }
    Some(h.substring_char(7, n).to_owned())
}

/// The token a request presents: the header's bearer token, else the
/// query's `token` parameter.
pub open spec fn presented(header: Option<Seq<char>>, query: Option<Seq<u8>>) -> Option<Seq<char>> {
    let from_header = match header {
        Some(h) => bearer_value(h),
        None => None,
    };
    match from_header {
        Some(t) => Some(t),
        None => match query {
            Some(q) => token_in_query(q),
            None => None,
        },
    }
}

/// The token presented by a request whose `Authorization` header reads
/// `header` (when present and readable as text) and whose query string
/// is `query`; refused when there is none.
pub fn presented_token(header: Option<&str>, query: Option<&str>) -> (r: Result<String, AuthError>)
    ensures
        match presented(
            crate::text::opt_str_chars(header),
            match query {
                Some(q) => Some(q.spec_bytes()),
                None => None,
            },
        ) {
            Some(t) => r matches Ok(s) && s@ == t,
            None => r matches Err(e) && e.0@ == "missing Authorization header"@,
        },
{
    let from_header = match header {
        Some(h) => bearer_token(h),
        None => None,
    };
    match from_header {
        Some(t) => Ok(t),
        None => {
            let from_query = match query {
                Some(q) => token_from_query(q),
                None => None,
            };
            match from_query {
                Some(t) => Ok(t),
                None => Err(AuthError("missing Authorization header".to_owned())),
            }
        },
    }
}

/// The authenticated user, given the user whose token hash matched
/// (`None`: no user has it).
pub fn authenticated(user: Option<User>) -> (r: Result<AuthedUser, AuthError>)
    ensures
        match user {
            Some(u) => r matches Ok(a) && a.0 == u,
            None => r matches Err(e) && e.0@ == "invalid token"@,
        },
{
    match user {
        Some(u) => Ok(AuthedUser(u)),
        None => Err(AuthError("invalid token".to_owned())),
    }
}

} // verus!
