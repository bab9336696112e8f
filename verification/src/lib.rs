//! A typed client library for the Tetter REST API.
//!
//! The library holds everything the client decides: how a credential is
//! sanitized into the one canonical `Authorization` header, how each
//! operation's request is described (verb, path, at most one body), how a
//! finished HTTP exchange is classified into success, structured server
//! error or decode fault, and how every entity is read from and written to
//! its wire JSON. The sending of requests is left to whatever embeds the
//! library; it hands back either a transport fault or a status with a body.

pub mod api;
pub mod json;
pub mod types;

use vstd::prelude::*;
use vstd::string::*;

verus! {

/// Unicode whitespace — the `White_Space` set — as stripped from the ends
/// of a credential.
pub open spec fn is_space(c: char) -> bool {
    ||| c == '\u{9}'
    ||| c == '\u{a}'
    ||| c == '\u{b}'
    ||| c == '\u{c}'
    ||| c == '\u{d}'
    ||| c == ' '
    ||| c == '\u{85}'
    ||| c == '\u{a0}'
    ||| c == '\u{1680}'
    ||| c == '\u{2000}'
    ||| c == '\u{2001}'
    ||| c == '\u{2002}'
    ||| c == '\u{2003}'
    ||| c == '\u{2004}'
    ||| c == '\u{2005}'
    ||| c == '\u{2006}'
    ||| c == '\u{2007}'
    ||| c == '\u{2008}'
    ||| c == '\u{2009}'
    ||| c == '\u{200a}'
    ||| c == '\u{2028}'
    ||| c == '\u{2029}'
    ||| c == '\u{202f}'
    ||| c == '\u{205f}'
    ||| c == '\u{3000}'
}

/// A text with its leading whitespace removed.
pub open spec fn trim_start_v(s: Seq<char>) -> Seq<char>
    decreases s.len(),
{
    if s.len() > 0 && is_space(s[0]) {
        trim_start_v(s.drop_first())
    } else {
        s
    }
}

/// A text with its trailing whitespace removed.
pub open spec fn trim_end_v(s: Seq<char>) -> Seq<char>
    decreases s.len(),
{
    if s.len() > 0 && is_space(s.last()) {
        trim_end_v(s.drop_last())
    } else {
        s
    }
}

/// A text with the whitespace removed from both ends.
pub open spec fn trim_v(s: Seq<char>) -> Seq<char> {
    trim_end_v(trim_start_v(s))
}

/// Whether a text starts with the literal header scheme `"Bearer "`.
pub open spec fn has_bearer_prefix(s: Seq<char>) -> bool {
    s.len() >= 7 && s.subrange(0, 7) == "Bearer "@
}

/// A text with one leading `"Bearer "` removed, if it has one.
pub open spec fn strip_bearer_v(s: Seq<char>) -> Seq<char> {
    if has_bearer_prefix(s) {
        s.skip(7)
    } else {
        s
    }
}

/// How a raw credential is sanitized: whitespace is trimmed from both
/// ends, a blank result counts as no credential at all, and one leading
/// `"Bearer "` pasted in by mistake is dropped.
pub open spec fn sanitize_v(s: Seq<char>) -> Option<Seq<char>> {
    if trim_v(s).len() == 0 {
        None
    } else {
        Some(strip_bearer_v(trim_v(s)))
    }
}

/// Sanitization of an optional raw credential.
pub open spec fn sanitize_opt_v(t: Option<Seq<char>>) -> Option<Seq<char>> {
    match t {
        None => None,
        Some(s) => sanitize_v(s),
    }
}

/// The canonical `Authorization` header value for a sanitized credential.
pub open spec fn auth_header_v(tok: Seq<char>) -> Seq<char> {
    "Bearer "@ + tok
}

/// The header a client built from a raw optional credential carries.
pub open spec fn client_auth_v(t: Option<Seq<char>>) -> Option<Seq<char>> {
    match sanitize_opt_v(t) {
        None => None,
        Some(c) => Some(auth_header_v(c)),
    }
}

fn is_space_char(c: char) -> (r: bool)
    ensures
        r == is_space(c),
{
    c == '\u{9}' || c == '\u{a}' || c == '\u{b}' || c == '\u{c}' || c == '\u{d}' || c == ' '
        || c == '\u{85}' || c == '\u{a0}' || c == '\u{1680}' || c == '\u{2000}' || c == '\u{2001}'
        || c == '\u{2002}' || c == '\u{2003}' || c == '\u{2004}' || c == '\u{2005}' || c
        == '\u{2006}' || c == '\u{2007}' || c == '\u{2008}' || c == '\u{2009}' || c == '\u{200a}'
        || c == '\u{2028}' || c == '\u{2029}' || c == '\u{202f}' || c == '\u{205f}' || c
        == '\u{3000}'
}

proof fn lemma_trim_start_skip(s: Seq<char>, a: int)
    requires
        0 <= a <= s.len(),
        forall|i: int| 0 <= i < a ==> is_space(s[i]),
        a == s.len() || !is_space(s[a]),
    ensures
        trim_start_v(s) == s.skip(a),
    decreases a,
{
    if a == 0 {
        assert(s.skip(0) =~= s);
    } else {
        lemma_trim_start_skip(s.drop_first(), a - 1);
        assert(s.drop_first().skip(a - 1) =~= s.skip(a));
    }
}

proof fn lemma_trim_end_take(s: Seq<char>, b: int)
    requires
        0 <= b <= s.len(),
        forall|i: int| b <= i < s.len() ==> is_space(s[i]),
        b == 0 || !is_space(s[b - 1]),
    ensures
        trim_end_v(s) == s.take(b),
    decreases s.len(),
{
    if b == s.len() {
        assert(s.take(b) =~= s);
    } else {
        lemma_trim_end_take(s.drop_last(), b);
        assert(s.drop_last().take(b) =~= s.take(b));
    }
}

/// Trimming a blank text leaves nothing.
pub proof fn lemma_trim_all_space(s: Seq<char>)
    ensures
        (forall|i: int| 0 <= i < s.len() ==> is_space(s[i])) ==> trim_v(s).len() == 0,
{
    if forall|i: int| 0 <= i < s.len() ==> is_space(s[i]) {
        lemma_trim_start_skip(s, s.len() as int);
        assert(s.skip(s.len() as int) =~= Seq::empty());
    }
}

proof fn lemma_trim_start_no_leading_space(s: Seq<char>)
    ensures
        trim_start_v(s).len() > 0 ==> !is_space(trim_start_v(s)[0]),
    decreases s.len(),
{
    if s.len() > 0 && is_space(s[0]) {
        lemma_trim_start_no_leading_space(s.drop_first());
    }
}

proof fn lemma_trim_end_no_trailing_space(s: Seq<char>)
    ensures
        trim_end_v(s).len() > 0 ==> !is_space(trim_end_v(s).last()),
    decreases s.len(),
{
    if s.len() > 0 && is_space(s.last()) {
        lemma_trim_end_no_trailing_space(s.drop_last());
    }
}

proof fn lemma_trim_end_keeps_first(s: Seq<char>)
    ensures
        trim_end_v(s).len() > 0 ==> trim_end_v(s)[0] == s[0],
    decreases s.len(),
{
    if s.len() > 0 && is_space(s.last()) {
        lemma_trim_end_keeps_first(s.drop_last());
    }
}

/// A trimmed, non-blank text neither starts nor ends with whitespace.
pub proof fn lemma_trim_ends(s: Seq<char>)
    ensures
        trim_v(s).len() > 0 ==> !is_space(trim_v(s)[0]) && !is_space(trim_v(s).last()),
{
    lemma_trim_start_no_leading_space(s);
    lemma_trim_end_no_trailing_space(trim_start_v(s));
    lemma_trim_end_keeps_first(trim_start_v(s));
}

fn trim_str(s: &str) -> (r: String)
    ensures
        r@ == trim_v(s@),
{
    let n = s.unicode_len();
    let mut a: usize = 0;
    while a < n && is_space_char(s.get_char(a))
        invariant
            0 <= a <= n,
            n == s@.len(),
            forall|i: int| 0 <= i < a ==> is_space(s@[i]),
        decreases n - a,
    {
        a = a + 1;
    }
    let mut b: usize = n;
    while b > a && is_space_char(s.get_char(b - 1))
        invariant
            a <= b <= n,
            n == s@.len(),
            forall|i: int| b <= i < n ==> is_space(s@[i]),
        decreases b,
    {
        b = b - 1;
    }
    proof {
        lemma_trim_start_skip(s@, a as int);
        let t = s@.skip(a as int);
        lemma_trim_end_take(t, b - a);
        assert(t.take(b - a) =~= s@.subrange(a as int, b as int));
    }
    s.substring_char(a, b).to_owned()
}

/// Sanitizes a raw optional credential: trims whitespace, treats a blank
/// credential as absent, and strips one leading `"Bearer "` if present.
pub fn sanitize_token(token: Option<String>) -> (r: Option<String>)
    ensures
        r.deep_view() == sanitize_opt_v(token.deep_view()),
{
    match token {
        None => None,
        Some(t) => {
            let tt = trim_str(t.as_str());
            let n = tt.unicode_len();
            if n == 0 {
                None
            } else {
                let has_prefix = n >= 7 && crate::json::str_eq(
                    tt.as_str().substring_char(0, 7),
                    "Bearer ",
                );
                if has_prefix {
                    proof {
                        assert(has_bearer_prefix(tt@));
                        assert(tt@.subrange(7, n as int) =~= tt@.skip(7));
                    }
                    Some(tt.as_str().substring_char(7, n).to_owned())
                } else {
                    proof {
                        if n >= 7 {
                            assert(!has_bearer_prefix(tt@));
                        }
                    }
                    Some(tt)
                }
            }
        },
    }
}

/// The transport client's immutable configuration: the canonical
/// `Authorization` header to attach to every request, if a credential
/// survived sanitization. The embedding process builds its one shared
/// HTTP connection from this.
pub struct Client {
    pub authorization: Option<String>,
}

impl Client {
    /// Creates a client configuration from an optional raw credential.
    ///
    /// The credential is sanitized; a blank one, or none, attaches no
    /// `Authorization` header at all; any other leaves exactly the
    /// canonical `Bearer` header.
    pub fn new(token: Option<String>) -> (r: Client)
        ensures
            r.authorization.deep_view() == client_auth_v(token.deep_view()),
            match token.deep_view() {
                Some(s) => (forall|i: int| 0 <= i < s.len() ==> is_space(s[i]))
                    ==> r.authorization is None,
                None => r.authorization is None,
            },
    {
        proof {
            match token.deep_view() {
                Some(s) => lemma_trim_all_space(s),
                None => (),
            }
        }
        let tok = sanitize_token(token);
        match tok {
            None => Client { authorization: None },
            Some(t) => {
                let mut h = "Bearer ".to_owned();
                h.append(t.as_str());
                Client { authorization: Some(h) }
            },
        }
    }

    /// The fixed identification every request carries.
    pub fn user_agent() -> (r: &'static str)
        ensures
            r@ == "Kasane/0.1"@,
    {
        "Kasane/0.1"
    }
}

/// Sanitizing is idempotent: what one pass yields, a second pass keeps.
///
/// The one family of credentials left out is those whose first pass still
/// leaves a leading whitespace or a second `"Bearer "` at the front, as in
/// a credential reading `"Bearer Bearer x"`: there the second pass strips
/// further.
pub proof fn lemma_sanitize_idempotent(t: Option<Seq<char>>)
    requires
        match sanitize_opt_v(t) {
            Some(r) => !(r.len() > 0 && is_space(r[0])) && !has_bearer_prefix(r),
            None => true,
        },
    ensures
        sanitize_opt_v(sanitize_opt_v(t)) == sanitize_opt_v(t),
{
    reveal_strlit("Bearer ");
    match t {
        None => (),
        Some(s) => {
            if trim_v(s).len() == 0 {
            } else {
                let tr = trim_v(s);
                let r = strip_bearer_v(tr);
                lemma_trim_ends(s);
                if has_bearer_prefix(tr) {
                    assert("Bearer "@.len() == 7);
                    if tr.len() == 7 {
                        assert(tr == tr.subrange(0, 7));
                        assert(tr.last() == "Bearer "@[6]);
                        assert(is_space(tr.last()));
                        assert(false);
                    }
                    assert(r.len() > 0);
                    assert(r[0] == tr[7]);
                    assert(r.last() == tr.last());
                } else {
                    assert(r == tr);
                }
                assert(r.len() > 0);
                assert(!is_space(r[0]));
                assert(!is_space(r.last()));
                assert(trim_start_v(r) == r);
                assert(trim_end_v(r) == r);
                assert(trim_v(r) == r);
                assert(strip_bearer_v(r) == r);
                assert(sanitize_v(r) == Some(r));
            }
        },
    }
}

proof fn lemma_trim_start_under_space(ws: Seq<char>, u: Seq<char>)
    requires
        forall|i: int| 0 <= i < ws.len() ==> is_space(ws[i]),
    ensures
        trim_start_v(ws + u) == trim_start_v(u),
    decreases ws.len(),
{
    if ws.len() == 0 {
        assert(ws + u =~= u);
    } else {
        lemma_trim_start_under_space(ws.drop_first(), u);
        assert((ws + u).drop_first() =~= ws.drop_first() + u);
    }
}

proof fn lemma_trim_end_under_space(u: Seq<char>, ws: Seq<char>)
    requires
        forall|i: int| 0 <= i < ws.len() ==> is_space(ws[i]),
    ensures
        trim_end_v(u + ws) == trim_end_v(u),
    decreases ws.len(),
{
    if ws.len() == 0 {
        assert(u + ws =~= u);
    } else {
        lemma_trim_end_under_space(u, ws.drop_last());
        assert((u + ws).drop_last() =~= u + ws.drop_last());
        assert((u + ws).last() == ws.last());
    }
}

/// Every whitespace padding and one optional `"Bearer "` prefix sanitize
/// to the same canonical credential, and so to one identical
/// `Authorization` header.
pub proof fn lemma_sanitize_canonical(lead: Seq<char>, c: Seq<char>, tail: Seq<char>, prefixed: bool)
    requires
        c.len() > 0,
        !is_space(c[0]),
        !is_space(c.last()),
        !has_bearer_prefix(c),
        forall|i: int| 0 <= i < lead.len() ==> is_space(lead[i]),
        forall|i: int| 0 <= i < tail.len() ==> is_space(tail[i]),
    ensures
        sanitize_v(lead + (if prefixed { "Bearer "@ + c } else { c }) + tail) == Some(c),
        client_auth_v(Some(lead + (if prefixed { "Bearer "@ + c } else { c }) + tail)) == Some(
            auth_header_v(c),
        ),
{
    reveal_strlit("Bearer ");
    assert("Bearer "@.len() == 7);
    let m = if prefixed { "Bearer "@ + c } else { c };
    let w = lead + m + tail;
    assert(w =~= lead + (m + tail));
    lemma_trim_start_under_space(lead, m + tail);
    assert(!is_space(m[0]));
    assert((m + tail)[0] == m[0]);
    assert(trim_start_v(m + tail) == m + tail);
    lemma_trim_end_under_space(m, tail);
    assert(!is_space(m.last()));
    assert(trim_end_v(m) == m);
    assert(trim_v(w) == m);
    if prefixed {
        assert(m.subrange(0, 7) =~= "Bearer "@);
        assert(has_bearer_prefix(m));
        assert(m.skip(7) =~= c);
    }
    assert(strip_bearer_v(m) == c);
}

} // verus!
