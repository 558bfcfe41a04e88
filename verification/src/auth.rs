//! Token checks of the dashboard: whether a presented token matches the
//! configured one, and how a token is read out of an authorization header
//! value or a request's query string.

use vstd::prelude::*;
use crate::text::{starts_with, str_eq, str_starts_with};

verus! {

/// A request is accepted when no token is configured, and otherwise
/// exactly when a token was presented and it matches the configured one.
pub open spec fn spec_token_valid(provided: Option<Seq<char>>, expected: Option<Seq<char>>)
    -> bool {
    match expected {
        None => true,
        Some(e) => match provided {
            Some(p) => p == e,
            None => false,
        },
    }
}

/// Check a presented token against the configured one.
pub fn validate_token(provided: Option<&str>, expected: Option<&str>) -> (r: bool)
    ensures
        r == spec_token_valid(
            match provided {
                Some(p) => Some(p@),
                None => None,
            },
            match expected {
                Some(e) => Some(e@),
                None => None,
            },
        ),
{
    match (provided, expected) {
        (_, None) => true,
        (Some(p), Some(e)) => str_eq(p, e),
        (None, Some(_)) => false,
    }
}

/// The token carried by an authorization header value: what follows the
/// bearer prefix, if the value starts with it.
pub open spec fn spec_bearer_token(header: Seq<char>) -> Option<Seq<char>> {
    if starts_with(header, "Bearer "@) {
        Some(header.skip(7))
    } else {
        None
    }
}

/// Read the token out of an authorization header value.
pub fn token_from_auth_header(header: &str) -> (r: Option<String>)
    ensures
        r is Some <==> spec_bearer_token(header@) is Some,
        r matches Some(t) ==> spec_bearer_token(header@) matches Some(s) && t@ == s,
{
    proof {
        reveal_strlit("Bearer ");
    }
    if str_starts_with(header, "Bearer ") {
        let l = header.unicode_len();
        let rest = header.substring_char(7, l);
        proof {
            assert(header@.subrange(7, l as int) =~= header@.skip(7));
        }
        Some(rest.to_owned())
    } else {
        None
    }
}

/// The position of the first separator in a query string, or its length
/// if there is none.
pub open spec fn first_amp(q: Seq<char>) -> nat
    decreases q.len(),
{
    if q.len() == 0 {
        0
    } else if q[0] == '&' {
        0
    } else {
        1 + first_amp(q.drop_first())
    }
}

/// The position computed by `first_amp` is characterised by what stands
/// before and at it.
proof fn lemma_first_amp(q: Seq<char>, e: int)
    requires
        0 <= e <= q.len(),
        forall|k: int| 0 <= k < e ==> q[k] != '&',
        e < q.len() ==> q[e] == '&',
    ensures
        first_amp(q) == e,
    decreases e,
{
    if e == 0 {
    } else {
        assert(q[0] != '&');
        lemma_first_amp(q.drop_first(), e - 1);
    }
}

/// The token carried by a query string: the remainder of the first
/// `&`-separated segment that starts with the token key.
pub open spec fn spec_query_token(q: Seq<char>) -> Option<Seq<char>>
    decreases q.len(),
{
    let e = first_amp(q) as int;
    let seg = q.take(e);
    if starts_with(seg, "token="@) {
        Some(seg.skip(6))
    } else if e == q.len() {
        None
    } else {
        spec_query_token(q.skip(vstd::math::min(e + 1, q.len() as int)))
    }
}

/// Read the token out of a request's query string.
pub fn token_from_query(query: &str) -> (r: Option<String>)
    ensures
        r is Some <==> spec_query_token(query@) is Some,
        r matches Some(t) ==> spec_query_token(query@) matches Some(s) && t@ == s,
    decreases query@.len(),
{
    let l = query.unicode_len();
    let mut e: usize = 0;
    while e < l && query.get_char(e) != '&'
        invariant
            l == query@.len(),
            e <= l,
            forall|k: int| 0 <= k < e ==> query@[k] != '&',
        decreases l - e,
    {
        e = e + 1;
    }
    proof {
        lemma_first_amp(query@, e as int);
        reveal_strlit("token=");
    }
    let seg = query.substring_char(0, e);
    proof {
        assert(seg@ =~= query@.take(e as int));
    }
    if str_starts_with(seg, "token=") {
        let token = seg.substring_char(6, e);
        proof {
            assert(seg@.subrange(6, e as int) =~= query@.take(e as int).skip(6));
        }
        Some(token.to_owned())
    } else if e == l {
        None
    } else {
        let rest = query.substring_char(e + 1, l);
        proof {
            assert(rest@ =~= query@.skip(e as int + 1));
            assert(query@.skip(e as int + 1) =~= query@.skip(
                vstd::math::min(e as int + 1, query@.len() as int),
            ));
        }
        token_from_query(rest)
    }
}

} // verus!
