//! Construction of the advertised server URL.
//!
//! The service is reachable at `http://<ipv4>:9090?token=<token>`: the port
//! is fixed, the IPv4 address comes from the host's address probe, and the
//! token is the session's bearer token. This module builds that URL and
//! proves its shape: where its first `?` falls, what its `token=` query
//! value is, and that it matches the advertised format whenever the probe
//! hands in a plain host and the token is a canonical UUID.

use vstd::prelude::*;

verus! {

/// The advertised URL for host `ip` and bearer token `token`.
pub open spec fn address_chars(ip: Seq<char>, token: Seq<char>) -> Seq<char> {
    "http://"@ + ip + ":9090?token="@ + token
}

/// Index of the first `'?'` in `s`, or `s.len()` if there is none.
pub open spec fn first_qmark(s: Seq<char>) -> int
    decreases s.len(),
{
    if s.len() == 0 {
        0
    } else if s[0] == '?' {
        0
    } else {
        1 + first_qmark(s.drop_first())
    }
}

/// The `token=` query value of an advertised URL: everything after the
/// first `"?token="`.
pub open spec fn query_token_of(url: Seq<char>) -> Seq<char> {
    url.subrange(first_qmark(url) + 7, url.len() as int)
}

/// A character allowed in the host part of the advertised URL.
pub open spec fn is_host_char(c: char) -> bool {
    c != '/' && c != ':'
}

/// A character allowed in the token part of the advertised URL.
pub open spec fn is_token_char(c: char) -> bool {
    ('0' <= c && c <= '9') || ('a' <= c && c <= 'f') || c == '-'
}

/// A lowercase hexadecimal digit.
pub open spec fn is_lower_hex(c: char) -> bool {
    ('0' <= c && c <= '9') || ('a' <= c && c <= 'f')
}

/// The canonical hyphenated form of a UUID: 36 characters, `'-'` at
/// positions 8, 13, 18 and 23, lowercase hexadecimal digits everywhere
/// else.
pub open spec fn is_canonical_uuid(s: Seq<char>) -> bool {
    &&& s.len() == 36
    &&& forall|i: int|
        0 <= i < 36 && (i == 8 || i == 13 || i == 18 || i == 23) ==> s[i] == '-'
    &&& forall|i: int|
        0 <= i < 36 && !(i == 8 || i == 13 || i == 18 || i == 23) ==> is_lower_hex(#[trigger] s[i])
}

/// The advertised URL format `http://<host>:9090?token=<tok>` with a
/// nonempty host free of `'/'` and `':'` and a token of exactly 36
/// characters drawn from lowercase hex digits and `'-'`.
pub open spec fn matches_address_shape(s: Seq<char>) -> bool {
    exists|host: Seq<char>, tok: Seq<char>|
        {
            &&& s == #[trigger] address_chars(host, tok)
            &&& host.len() >= 1
            &&& forall|i: int| 0 <= i < host.len() ==> is_host_char(#[trigger] host[i])
            &&& tok.len() == 36
            &&& forall|i: int| 0 <= i < tok.len() ==> is_token_char(#[trigger] tok[i])
        }
}

/// Build the advertised URL from a probed host address and a token.
pub fn server_address(ip: &str, token: &str) -> (r: String)
    ensures
        r@ == address_chars(ip@, token@),
{
    let mut url = String::from_str("http://");
    url.append(ip);
    url.append(":9090?token=");
    url.append(token);
    proof {
        assert(url@ =~= address_chars(ip@, token@));
    }
    url
}

/// If no `'?'` occurs in `a`, the first `'?'` of `a + b` lies in `b`.
pub proof fn lemma_first_qmark_skip(a: Seq<char>, b: Seq<char>)
    requires
        forall|i: int| 0 <= i < a.len() ==> #[trigger] a[i] != '?',
    ensures
        first_qmark(a + b) == a.len() + first_qmark(b),
    decreases a.len(),
{
    if a.len() == 0 {
        assert(a + b =~= b);
    } else {
        assert((a + b)[0] == a[0]);
        assert((a + b).drop_first() =~= a.drop_first() + b);
        lemma_first_qmark_skip(a.drop_first(), b);
    }
}

/// If `s` starts with `'?'`, the first `'?'` is at index 0.
proof fn lemma_first_qmark_zero(s: Seq<char>)
    requires
        s.len() > 0,
        s[0] == '?',
    ensures
        first_qmark(s) == 0,
{
}

/// In the advertised URL the first `'?'` stands right after the port, so
/// the `token=` query value is exactly the session token.
pub proof fn lemma_query_token(ip: Seq<char>, token: Seq<char>)
    requires
        forall|i: int| 0 <= i < ip.len() ==> #[trigger] ip[i] != '?',
    ensures
        first_qmark(address_chars(ip, token)) == 12 + ip.len(),
        query_token_of(address_chars(ip, token)) == token,
{
    reveal_strlit("http://");
    reveal_strlit(":9090?token=");
    let url = address_chars(ip, token);
    let head = "http://"@ + ip + ":9090"@;
    let tail = "?token="@ + token;
    reveal_strlit(":9090");
    reveal_strlit("?token=");
    assert(url =~= head + tail);
    assert forall|i: int| 0 <= i < head.len() implies #[trigger] head[i] != '?' by {
        if i < 7 {
            assert(head[i] == "http://"@[i]);
        } else if i < 7 + ip.len() {
            assert(head[i] == ip[i - 7]);
        } else {
            assert(head[i] == ":9090"@[i - 7 - ip.len()]);
        }
    }
    lemma_first_qmark_skip(head, tail);
    lemma_first_qmark_zero(tail);
    assert(first_qmark(url) == 12 + ip.len());
    assert(query_token_of(url) =~= token);
}

/// Token stability: the `token=` query value of the advertised URL is the
/// session token, whatever address the probe returned, so any two URLs
/// built for the same session carry the same value.
pub proof fn lemma_token_stability(ip1: Seq<char>, ip2: Seq<char>, token: Seq<char>)
    requires
        forall|i: int| 0 <= i < ip1.len() ==> #[trigger] ip1[i] != '?',
        forall|i: int| 0 <= i < ip2.len() ==> #[trigger] ip2[i] != '?',
    ensures
        query_token_of(address_chars(ip1, token)) == query_token_of(address_chars(ip2, token)),
{
    lemma_query_token(ip1, token);
    lemma_query_token(ip2, token);
}

/// URL shape: with a nonempty probed host free of `'/'` and `':'` and a
/// canonical UUID token, the advertised URL matches the advertised format.
pub proof fn lemma_address_shape(ip: Seq<char>, token: Seq<char>)
    requires
        ip.len() >= 1,
        forall|i: int| 0 <= i < ip.len() ==> is_host_char(#[trigger] ip[i]),
        is_canonical_uuid(token),
    ensures
        matches_address_shape(address_chars(ip, token)),
{
    assert forall|i: int| 0 <= i < token.len() implies is_token_char(#[trigger] token[i]) by {
        if i == 8 || i == 13 || i == 18 || i == 23 {
            assert(token[i] == '-');
        } else {
            assert(is_lower_hex(token[i]));
        }
    }
    assert(address_chars(ip, token) == address_chars(ip, token));
}

} // verus!
