use vstd::prelude::*;
use crate::conversation::{trim_str, trimmed};

verus! {

/// The claims a bearer token carries: the user id and the expiry, in seconds
/// since the Unix epoch.
pub struct Claims {
    pub sub: String,
    pub exp: usize,
}

/// How long a token stays valid, in seconds.
pub const TOKEN_LIFETIME_SECS: usize = 86400;

/// The query parameter that names the socket's user.
pub const USER_PARAM: &'static str = "userId=";

/// The user a socket upgrade that names none is registered as.
pub const ANONYMOUS: &'static str = "Anonymous";

/// The scheme word that opens an `Authorization` header.
pub const BEARER: &'static str = "Bearer ";

impl Claims {
    /// The claims of a token for `user_id` issued at `now`, valid for a day.
    pub fn for_user(user_id: &String, now: usize) -> (r: Claims)
        requires
            now <= usize::MAX - TOKEN_LIFETIME_SECS,
        ensures
            r.sub@ == user_id@,
            r.exp == now + TOKEN_LIFETIME_SECS,
    {
        Claims { sub: user_id.clone(), exp: now + TOKEN_LIFETIME_SECS }
    }
}

/// `s` starts, at position `from`, with `p`.
pub open spec fn prefix_at(s: Seq<char>, from: int, p: Seq<char>) -> bool {
    &&& 0 <= from
    &&& from + p.len() <= s.len()
    &&& s.subrange(from, from + p.len()) == p
}

/// Whether `s` (of `n` characters) holds `p` at position `from`, within `to`.
fn prefix_within(s: &str, n: usize, from: usize, to: usize, p: &str) -> (r: bool)
    requires
        n == s@.len(),
        from <= to <= n,
    ensures
        r == (from + p@.len() <= to && prefix_at(s@, from as int, p@)),
{
    let m = p.unicode_len();
    if m > to - from {
        return false;
    }
    let mut k: usize = 0;
    while k < m
        invariant
            m == p@.len(),
            from + m <= to <= n,
            n == s@.len(),
            k <= m,
            forall|j: int| 0 <= j < k ==> s@[from + j] == p@[j],
        decreases m - k,
    {
        if s.get_char(from + k) != p.get_char(k) {
            assert(s@.subrange(from as int, from + m)[k as int] != p@[k as int]);
            return false;
        }
        k = k + 1;
    }
    assert(s@.subrange(from as int, from + m) =~= p@);
    true
}

/// What a query piece `piece` gives for the user: its value when it is a
/// `userId=` parameter, else what earlier pieces gave.
pub open spec fn take_param(piece: Seq<char>, found: Option<Seq<char>>) -> Option<Seq<char>> {
    if prefix_at(piece, 0, USER_PARAM@) {
        Some(piece.subrange(USER_PARAM@.len() as int, piece.len() as int))
    } else {
        found
    }
}

/// Reads the query from position `i`, inside the piece that began at `start`,
/// with `found` from the pieces before: pieces are separated by `&`, and a
/// later `userId=` overrides an earlier one.
pub open spec fn scan_query(q: Seq<char>, i: int, start: int, found: Option<Seq<char>>) -> Option<
    Seq<char>,
>
    decreases q.len() - i,
{
    if i >= q.len() {
        take_param(q.subrange(start, q.len() as int), found)
    } else if q[i] == '&' {
        scan_query(q, i + 1, i + 1, take_param(q.subrange(start, i), found))
    } else {
        scan_query(q, i + 1, start, found)
    }
}

/// The user that an upgrade query names: the value of its last `userId=`
/// parameter, else `Anonymous`.
pub open spec fn query_user(q: Seq<char>) -> Seq<char> {
    match scan_query(q, 0, 0, None) {
        Some(u) => u,
        None => ANONYMOUS@,
    }
}

/// The user id a socket upgrade names in its query string.
pub fn user_id_from_query(query: &String) -> (r: String)
    ensures
        r@ == query_user(query@),
{
    let q = query.as_str();
    let n = q.unicode_len();
    let plen = USER_PARAM.unicode_len();
    let mut found: Option<String> = None;
    let mut start: usize = 0;
    let mut i: usize = 0;
    while i < n
        invariant
            n == q@.len(),
            q@ == query@,
            plen == USER_PARAM@.len(),
            start <= i <= n,
            scan_query(q@, i as int, start as int, match found {
                Some(s) => Some(s@),
                None => None,
            }) == scan_query(q@, 0, 0, None),
        decreases n - i,
    {
        if q.get_char(i) == '&' {
            if prefix_within(q, n, start, i, USER_PARAM) {
                found = Some(q.substring_char(start + plen, i).to_string());
                assert(q@.subrange(start as int, i as int).subrange(plen as int, (i - start) as int) =~= q@.subrange(start + plen, i as int));
            }
            assert(prefix_at(q@.subrange(start as int, i as int), 0, USER_PARAM@) == (start + plen <= i && prefix_at(q@, start as int, USER_PARAM@))) by {
                if start + plen <= i {
                    assert(q@.subrange(start as int, i as int).subrange(0, plen as int) =~= q@.subrange(start as int, start + plen));
                }
            }
            start = i + 1;
        }
        i = i + 1;
    }
    if prefix_within(q, n, start, n, USER_PARAM) {
        found = Some(q.substring_char(start + plen, n).to_string());
        assert(q@.subrange(start as int, n as int).subrange(plen as int, (n - start) as int) =~= q@.subrange(start + plen, n as int));
    }
    assert(prefix_at(q@.subrange(start as int, n as int), 0, USER_PARAM@) == (start + plen <= n && prefix_at(q@, start as int, USER_PARAM@))) by {
        if start + plen <= n {
            assert(q@.subrange(start as int, n as int).subrange(0, plen as int) =~= q@.subrange(start as int, start + plen));
        }
    }
    match found {
        Some(u) => u,
        None => ANONYMOUS.to_string(),
    }
}

/// `s` with every leading `Bearer ` removed.
pub open spec fn strip_bearers(s: Seq<char>) -> Seq<char>
    decreases s.len(),
{
    if BEARER@.len() > 0 && prefix_at(s, 0, BEARER@) {
        strip_bearers(s.subrange(BEARER@.len() as int, s.len() as int))
    } else {
        s
    }
}

/// The token an `Authorization` header carries: present only when the header
/// opens with `Bearer `; every leading `Bearer ` is dropped, then surrounding
/// white space.
pub open spec fn bearer_of(header: Seq<char>) -> Option<Seq<char>> {
    if prefix_at(header, 0, BEARER@) {
        Some(trimmed(strip_bearers(header)))
    } else {
        None
    }
}

/// The bearer token in an `Authorization` header, if it holds one.
pub fn bearer_token(header: &String) -> (r: Option<String>)
    ensures
        match r {
            Some(t) => bearer_of(header@) == Some(t@),
            None => bearer_of(header@) is None,
        },
{
    let h = header.as_str();
    let n = h.unicode_len();
    let plen = BEARER.unicode_len();
    if !prefix_within(h, n, 0, n, BEARER) {
        return None;
    }
    let mut pos: usize = 0;
    assert(h@.subrange(0, n as int) =~= h@);
    while plen > 0 && prefix_within(h, n, pos, n, BEARER)
        invariant
            n == h@.len(),
            h@ == header@,
            plen == BEARER@.len(),
            pos <= n,
            strip_bearers(h@.subrange(pos as int, n as int)) == strip_bearers(h@),
        decreases n - pos,
    {
        let ghost rest = h@.subrange(pos as int, n as int);
        assert(rest.subrange(0, plen as int) =~= h@.subrange(pos as int, pos + plen));
        assert(rest.subrange(plen as int, rest.len() as int) =~= h@.subrange(pos + plen, n as int));
        pos = pos + plen;
    }
    proof {
        let rest = h@.subrange(pos as int, n as int);
        if plen > 0 && pos + plen <= n {
            assert(rest.subrange(0, plen as int) =~= h@.subrange(pos as int, pos + plen));
        }
        assert(h@.subrange(0, n as int) =~= h@);
    }
    let rest = h.substring_char(pos, n);
    Some(trim_str(rest).to_string())
}

/// How a request stands after its `Authorization` header is read.
pub enum AuthOutcome {
    /// No bearer token: the request goes on without a user.
    Anonymous,
    /// A token that checks out, naming this user.
    Authenticated(String),
    /// A token that does not check out: the request is refused.
    Rejected,
}

/// Relies on jsonwebtoken::decode with the default validation (HS256, expiry
/// checked against the current time): the `sub` claim of a token that checks
/// out, else `None`. The answer depends on the clock, so nothing is promised
/// of it.
#[verifier::external_body]
fn verify_token(token: &str, secret: &str) -> (r: Option<String>) {
    match jsonwebtoken::decode::<serde_json::Value>(
        token,
        &jsonwebtoken::DecodingKey::from_secret(secret.as_bytes()),
        &jsonwebtoken::Validation::default(),
    ) {
        Ok(data) => match data.claims.get("sub") {
            Some(serde_json::Value::String(s)) => Some(s.clone()),
            _ => None,
        },
        Err(_) => None,
    }
}

/// Reads the `Authorization` header of a request: without a bearer token the
/// request is anonymous; with one, the token is checked against `secret`.
pub fn authenticate(header: &Option<String>, secret: &String) -> (r: AuthOutcome)
    ensures
        (match header {
            Some(h) => bearer_of(h@) is None,
            None => true,
        }) <==> r is Anonymous,
{
    match header {
        Some(h) => match bearer_token(h) {
            Some(token) => match verify_token(token.as_str(), secret.as_str()) {
                Some(user) => AuthOutcome::Authenticated(user),
                None => AuthOutcome::Rejected,
            },
            None => AuthOutcome::Anonymous,
        },
        None => AuthOutcome::Anonymous,
    }
}

} // verus!
