//! Request policy of the HTTP API: which requests must carry JSON, which
//! origins may call it cross-site, and the headers and limits applied.
use vstd::prelude::*;
use crate::config::Config;
use crate::text::{chars_of, concat, opt_view, owned, push_int, str_eq, int_text, trim, trimmed};

verus! {

/// Seconds an API request may take.
pub const API_REQUEST_TIMEOUT_SECS: u64 = 30;

/// Ceiling on API requests in flight at once.
pub const MAX_INFLIGHT_REQUESTS: usize = 64;

/// Largest accepted request body, in bytes.
pub const MAX_REQUEST_BODY_BYTES: usize = 1048576;

pub const CONTENT_SECURITY_POLICY: &'static str = "default-src 'self'; img-src 'self' https://image.tmdb.org data:; script-src 'self'; style-src 'self' 'unsafe-inline'; connect-src 'self'; frame-ancestors 'none'; base-uri 'self'; form-action 'self'; object-src 'none'";

/// The security headers set on every response that lacks them, as
/// (header name, value) pairs.
pub fn security_headers() -> (r: Vec<(&'static str, &'static str)>)
    ensures
        r@.len() == 4,
        r@[0].0@ == "content-security-policy"@ && r@[0].1@ == CONTENT_SECURITY_POLICY@,
        r@[1].0@ == "x-content-type-options"@ && r@[1].1@ == "nosniff"@,
        r@[2].0@ == "x-frame-options"@ && r@[2].1@ == "DENY"@,
        r@[3].0@ == "referrer-policy"@ && r@[3].1@ == "no-referrer"@,
{
    let mut r: Vec<(&'static str, &'static str)> = Vec::new();
    r.push(("content-security-policy", CONTENT_SECURITY_POLICY));
    r.push(("x-content-type-options", "nosniff"));
    r.push(("x-frame-options", "DENY"));
    r.push(("referrer-policy", "no-referrer"));
    r
}

// === JSON content type ===

/// The ASCII lower-case form of a character.
pub open spec fn ascii_lower(c: char) -> char {
    if c == 'A' { 'a' }
    else if c == 'B' { 'b' }
    else if c == 'C' { 'c' }
    else if c == 'D' { 'd' }
    else if c == 'E' { 'e' }
    else if c == 'F' { 'f' }
    else if c == 'G' { 'g' }
    else if c == 'H' { 'h' }
    else if c == 'I' { 'i' }
    else if c == 'J' { 'j' }
    else if c == 'K' { 'k' }
    else if c == 'L' { 'l' }
    else if c == 'M' { 'm' }
    else if c == 'N' { 'n' }
    else if c == 'O' { 'o' }
    else if c == 'P' { 'p' }
    else if c == 'Q' { 'q' }
    else if c == 'R' { 'r' }
    else if c == 'S' { 's' }
    else if c == 'T' { 't' }
    else if c == 'U' { 'u' }
    else if c == 'V' { 'v' }
    else if c == 'W' { 'w' }
    else if c == 'X' { 'x' }
    else if c == 'Y' { 'y' }
    else if c == 'Z' { 'z' }
    else { c }
}

/// `eq_ignore_ascii_case`: equal up to ASCII letter case.
pub open spec fn eq_ignore_ascii_case(a: Seq<char>, b: Seq<char>) -> bool {
    a.len() == b.len() && forall|i: int| 0 <= i < a.len() ==> ascii_lower(#[trigger] a[i])
        == ascii_lower(b[i])
}

/// The position of the first `c` in `s`.
pub open spec fn first_index(s: Seq<char>, c: char) -> Option<int> {
    if exists|i: int| 0 <= i < s.len() && s[i] == c && forall|j: int| 0 <= j < i ==> s[j] != c {
        Some(choose|i: int| 0 <= i < s.len() && s[i] == c && forall|j: int| 0 <= j < i ==> s[j] != c)
    } else {
        None
    }
}

/// The position of the last `c` in `s`.
pub open spec fn last_index(s: Seq<char>, c: char) -> Option<int> {
    if exists|i: int| 0 <= i < s.len() && s[i] == c && forall|j: int| i < j < s.len() ==> s[j] != c {
        Some(choose|i: int| 0 <= i < s.len() && s[i] == c && forall|j: int| i < j < s.len() ==> s[j] != c)
    } else {
        None
    }
}

/// The media type without its parameters: what precedes the first `;`,
/// trimmed.
pub open spec fn essence(raw: Seq<char>) -> Seq<char> {
    match first_index(raw, ';') {
        Some(i) => trim(raw.take(i)),
        None => trim(raw),
    }
}

/// `application/json`, or any `application/<subtype>+json`, ignoring
/// parameters and ASCII case.
pub open spec fn is_json_media_type(raw: Seq<char>) -> bool {
    essence_is_json(essence(raw))
}

/// `application/json` or `application/<subtype>+json`, up to ASCII case.
pub open spec fn essence_is_json(e: Seq<char>) -> bool {
    match first_index(e, '/') {
        Some(i) => {
            let ty = e.take(i);
            let sub = e.skip(i + 1);
            eq_ignore_ascii_case(ty, "application"@) && (eq_ignore_ascii_case(sub, "json"@) || match last_index(sub, '+') {
                Some(k) => eq_ignore_ascii_case(sub.skip(k + 1), "json"@),
                None => false,
            })
        },
        None => false,
    }
}

fn lower(c: char) -> (r: char)
    ensures
        r == ascii_lower(c),
{
    if c == 'A' { 'a' }
    else if c == 'B' { 'b' }
    else if c == 'C' { 'c' }
    else if c == 'D' { 'd' }
    else if c == 'E' { 'e' }
    else if c == 'F' { 'f' }
    else if c == 'G' { 'g' }
    else if c == 'H' { 'h' }
    else if c == 'I' { 'i' }
    else if c == 'J' { 'j' }
    else if c == 'K' { 'k' }
    else if c == 'L' { 'l' }
    else if c == 'M' { 'm' }
    else if c == 'N' { 'n' }
    else if c == 'O' { 'o' }
    else if c == 'P' { 'p' }
    else if c == 'Q' { 'q' }
    else if c == 'R' { 'r' }
    else if c == 'S' { 's' }
    else if c == 'T' { 't' }
    else if c == 'U' { 'u' }
    else if c == 'V' { 'v' }
    else if c == 'W' { 'w' }
    else if c == 'X' { 'x' }
    else if c == 'Y' { 'y' }
    else if c == 'Z' { 'z' }
    else { c }
}

fn eq_ignore_case(a: &Vec<char>, lo: usize, hi: usize, b: &str) -> (r: bool)
    requires
        lo <= hi <= a@.len(),
    ensures
        r == eq_ignore_ascii_case(a@.subrange(lo as int, hi as int), b@),
{
    let bv = chars_of(b);
    if hi - lo != bv.len() {
        return false;
    }
    let mut i: usize = 0;
    while i < bv.len()
        invariant
            0 <= i <= bv@.len(),
            bv@ == b@,
            hi - lo == bv@.len(),
            lo <= hi <= a@.len(),
            forall|j: int| 0 <= j < i ==> ascii_lower(#[trigger] a@.subrange(lo as int, hi as int)[j]) == ascii_lower(b@[j]),
        decreases bv@.len() - i,
    {
        assert(a@.subrange(lo as int, hi as int)[i as int] == a@[lo + i]);
        if lower(a[lo + i]) != lower(bv[i]) {
            return false;
        }
        i = i + 1;
    }
    true
}

fn find_first(s: &Vec<char>, c: char) -> (r: Option<usize>)
    ensures
        r matches Some(i) ==> i < s@.len() && s@[i as int] == c,
        match first_index(s@, c) {
            Some(i) => r == Some(i as usize),
            None => r is None,
        },
{
    let mut i: usize = 0;
    while i < s.len()
        invariant
            0 <= i <= s@.len(),
            forall|j: int| 0 <= j < i ==> s@[j] != c,
        decreases s@.len() - i,
    {
        if s[i] == c {
            proof {
                let k = choose|k: int| 0 <= k < s@.len() && s@[k] == c && forall|j: int| 0 <= j < k ==> s@[j] != c;
                assert(k == i as int) by {
                    if k < i {
                    } else if k > i {
                        assert(s@[i as int] != c);
                    }
                }
            }
            return Some(i);
        }
        i = i + 1;
    }
    None
}

fn find_last(s: &Vec<char>, lo: usize, c: char) -> (r: Option<usize>)
    requires
        lo <= s@.len(),
    ensures
        match last_index(s@.skip(lo as int), c) {
            Some(k) => r == Some((lo + k) as usize),
            None => r is None,
        },
{
    let ghost t = s@.skip(lo as int);
    let mut i: usize = s.len();
    while i > lo
        invariant
            lo <= i <= s@.len(),
            t == s@.skip(lo as int),
            forall|j: int| i - lo <= j < t.len() ==> t[j] != c,
        decreases i,
    {
        if s[i - 1] == c {
            proof {
                assert(t[i - 1 - lo] == c);
                let k = choose|k: int| 0 <= k < t.len() && t[k] == c && forall|j: int| k < j < t.len() ==> t[j] != c;
                assert(k == i - 1 - lo) by {
                    if k < i - 1 - lo {
                        assert(t[i - 1 - lo] != c);
                    } else if k > i - 1 - lo {
                    }
                }
            }
            return Some(i - 1);
        }
        assert(t[i - 1 - lo] == s@[i - 1]);
        i = i - 1;
    }
    None
}

fn prefix_string(v: &Vec<char>, n: usize) -> (r: String)
    requires
        n <= v@.len(),
    ensures
        r@ == v@.take(n as int),
{
    let mut h = String::new();
    let mut k: usize = 0;
    while k < n
        invariant
            0 <= k <= n <= v@.len(),
            h@ == v@.take(k as int),
        decreases n - k,
    {
        crate::text::push_char(&mut h, v[k]);
        assert(h@ =~= v@.take(k + 1));
        k = k + 1;
    }
    h
}

fn essence_chars(raw: &str) -> (r: Vec<char>)
    ensures
        r@ == essence(raw@),
{
    let rc = chars_of(raw);
    let head: String = match find_first(&rc, ';') {
        Some(i) => prefix_string(&rc, i),
        None => owned(raw),
    };
    let e = trimmed(head.as_str());
    chars_of(e.as_str())
}

fn essence_json(ec: &Vec<char>) -> (r: bool)
    ensures
        r == essence_is_json(ec@),
{
    let slash = match find_first(ec, '/') {
        Some(i) => i,
        None => {
            return false;
        },
    };
    let n = ec.len();
    assert(ec@.take(slash as int) =~= ec@.subrange(0, slash as int));
    assert(ec@.skip(slash + 1) =~= ec@.subrange(slash + 1, n as int));
    if !eq_ignore_case(ec, 0, slash, "application") {
        return false;
    }
    if eq_ignore_case(ec, slash + 1, n, "json") {
        return true;
    }
    let ghost sub = ec@.skip(slash + 1);
    match find_last(ec, slash + 1, '+') {
        Some(p) => {
            assert(sub.skip((p - (slash + 1)) + 1) =~= ec@.subrange(p + 1, n as int));
            eq_ignore_case(ec, p + 1, n, "json")
        },
        None => false,
    }
}

/// Whether a `Content-Type` value (if any) names JSON.
pub fn is_json_content_type(value: Option<&str>) -> (r: bool)
    ensures
        r == match value {
            Some(raw) => is_json_media_type(raw@),
            None => false,
        },
{
    match value {
        Some(v) => {
            let ec = essence_chars(v);
            essence_json(&ec)
        },
        None => false,
    }
}

/// Whether a request method changes state (POST, PUT, PATCH).
pub open spec fn is_state_changing(method: Seq<char>) -> bool {
    method == "POST"@ || method == "PUT"@ || method == "PATCH"@
}

/// A state-changing request without a JSON `Content-Type` is refused
/// (415): a cross-origin HTML form can only send simple content types.
pub fn rejects_request(method: &str, content_type: Option<&str>) -> (r: bool)
    ensures
        r == (is_state_changing(method@) && !match content_type {
            Some(raw) => is_json_media_type(raw@),
            None => false,
        }),
{
    let guarded = str_eq(method, "POST") || str_eq(method, "PUT") || str_eq(method, "PATCH");
    guarded && !is_json_content_type(content_type)
}

// === CORS ===

/// Which origins may call the API cross-site.
pub enum CorsOrigin {
    /// Any origin (configured as `*`); credentials are never allowed.
    Any,
    /// Exactly this origin.
    Exact(String),
}

/// The origin allowed by default: the app served on its own port.
pub open spec fn default_origin(port: u16) -> Seq<char> {
    "http://localhost:"@ + int_text(port as int)
}

/// The allowed origin for a configuration: `*` allows any, a configured
/// origin allows exactly it, none allows the app's own localhost origin.
pub fn cors_origin(config: &Config) -> (r: CorsOrigin)
    ensures
        match opt_view(config.server.cors_allowed_origin) {
            Some(o) => if o == "*"@ {
                r is Any
            } else {
                r matches CorsOrigin::Exact(x) && x@ == o
            },
            None => r matches CorsOrigin::Exact(x) && x@ == default_origin(config.server.port),
        },
{
    match &config.server.cors_allowed_origin {
        Some(o) => if str_eq(o.as_str(), "*") {
            CorsOrigin::Any
        } else {
            CorsOrigin::Exact(o.clone())
        },
        None => {
            let mut s = owned("http://localhost:");
            push_int(&mut s, config.server.port as i64);
            CorsOrigin::Exact(s)
        },
    }
}

/// The methods cross-site callers may use.
pub fn cors_methods() -> (r: Vec<&'static str>)
    ensures
        r@.len() == 5,
        r@[0]@ == "GET"@ && r@[1]@ == "POST"@ && r@[2]@ == "PUT"@ && r@[3]@ == "PATCH"@
            && r@[4]@ == "DELETE"@,
{
    let mut r: Vec<&'static str> = Vec::new();
    r.push("GET");
    r.push("POST");
    r.push("PUT");
    r.push("PATCH");
    r.push("DELETE");
    r
}

} // verus!
