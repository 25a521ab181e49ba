//! The health check and the configuration summary shown in the
//! application's status panel.

use vstd::prelude::*;
use crate::config::{backend_mode_name, Config};
use crate::text::{
    chars_of, find_char, find_from, has_prefix, lower_chars, lower_seq, occurs_at, rfind_char,
    slice_chars, starts_with_chars, string_of, trim, trim_chars,
};

verus! {

/// The application's liveness answer.
#[derive(Debug, Clone)]
pub struct HealthCheck {
    pub status: String,
}

pub fn health_check() -> (r: HealthCheck)
    ensures
        r.status@ == "ok"@,
{
    HealthCheck { status: "ok".to_string() }
}

/// The first position of `p` in `s`.
pub open spec fn first_occurrence(s: Seq<char>, p: Seq<char>) -> Option<int> {
    if exists|i: int| occurs_at(s, p, i) {
        Some(choose|i: int| occurs_at(s, p, i) && forall|k: int| 0 <= k < i ==> !occurs_at(s, p, k))
    } else {
        None
    }
}

/// The first position of `c` in `s`.
pub open spec fn first_pos(s: Seq<char>, c: char) -> Option<int> {
    if exists|i: int| 0 <= i < s.len() && s[i] == c {
        Some(choose|i: int| 0 <= i < s.len() && s[i] == c && forall|k: int| 0 <= k < i ==> s[k] != c)
    } else {
        None
    }
}

/// The last position of `c` in `s`.
pub open spec fn last_pos(s: Seq<char>, c: char) -> Option<int> {
    if exists|i: int| 0 <= i < s.len() && s[i] == c {
        Some(choose|i: int| 0 <= i < s.len() && s[i] == c && forall|k: int| i < k < s.len() ==> s[k] != c)
    } else {
        None
    }
}

/// `s` up to the first `c` (all of it without one).
pub open spec fn before_first(s: Seq<char>, c: char) -> Seq<char> {
    match first_pos(s, c) {
        Some(i) => s.take(i),
        None => s,
    }
}

/// `s` after the last `c` (all of it without one).
pub open spec fn after_last(s: Seq<char>, c: char) -> Seq<char> {
    match last_pos(s, c) {
        Some(i) => s.skip(i + 1),
        None => s,
    }
}

pub open spec fn is_bracket(c: char) -> bool {
    c == '[' || c == ']'
}

/// `s` without brackets at either end.
pub open spec fn trim_brackets(s: Seq<char>) -> Seq<char>
    decreases s.len(),
{
    if s.len() > 0 && is_bracket(s[0]) {
        trim_brackets(s.drop_first())
    } else if s.len() > 0 && is_bracket(s.last()) {
        trim_brackets(s.drop_last())
    } else {
        s
    }
}

/// The host of a worker URL: after the scheme, before any path or query,
/// after any user part, before any port, without brackets.
pub open spec fn endpoint_host(raw: Seq<char>) -> Seq<char> {
    let without_scheme = trim(
        match first_occurrence(raw, "://"@) {
            Some(i) => raw.skip(i + 3),
            None => raw,
        },
    );
    let authority = trim(before_first(before_first(without_scheme, '/'), '?'));
    trim_brackets(before_first(after_last(authority, '@'), ':'))
}

pub open spec fn private_prefixes() -> Seq<Seq<char>> {
    seq![
        "192.168."@, "10."@, "172.16."@, "172.17."@, "172.18."@, "172.19."@, "172.20."@, "172.21."@,
        "172.22."@, "172.23."@, "172.24."@, "172.25."@, "172.26."@, "172.27."@, "172.28."@,
        "172.29."@, "172.30."@, "172.31."@,
    ]
}

/// A host on this machine or a private network.
pub open spec fn is_local_host(h: Seq<char>) -> bool {
    ||| h == "localhost"@
    ||| h == "127.0.0.1"@
    ||| h == "0.0.0.0"@
    ||| h == "::1"@
    ||| exists|i: int| 0 <= i < private_prefixes().len() && has_prefix(h, #[trigger] private_prefixes()[i])
}

/// How the status panel shows the worker endpoint: not configured, a
/// local or private worker, or the remote host.
pub open spec fn endpoint_summary(raw: Seq<char>) -> (Seq<char>, Seq<char>) {
    let host = endpoint_host(raw);
    let normalized = lower_seq(host);
    if normalized.len() == 0 {
        ("not configured"@, "unknown"@)
    } else if is_local_host(normalized) {
        ("local/private worker"@, "local"@)
    } else {
        (host, "remote"@)
    }
}

proof fn lemma_first_pos(s: Seq<char>, c: char, i: int)
    requires
        0 <= i < s.len(),
        s[i] == c,
        forall|k: int| 0 <= k < i ==> s[k] != c,
    ensures
        first_pos(s, c) == Some(i),
{
    let j = choose|j: int| 0 <= j < s.len() && s[j] == c && forall|k: int| 0 <= k < j ==> s[k] != c;
    assert(j == i) by {
        if j < i {
            assert(s[j] != c);
        } else if i < j {
            assert(s[i] != c);
        }
    }
}

proof fn lemma_last_pos(s: Seq<char>, c: char, i: int)
    requires
        0 <= i < s.len(),
        s[i] == c,
        forall|k: int| i < k < s.len() ==> s[k] != c,
    ensures
        last_pos(s, c) == Some(i),
{
    let j = choose|j: int| 0 <= j < s.len() && s[j] == c && forall|k: int| j < k < s.len() ==> s[k] != c;
    assert(j == i) by {
        if j < i {
            assert(s[i] != c);
        } else if i < j {
            assert(s[j] != c);
        }
    }
}

fn cut_before_first(s: &Vec<char>, c: char) -> (r: Vec<char>)
    ensures
        r@ == before_first(s@, c),
{
    match find_char(s, c) {
        Some(i) => {
            proof {
                lemma_first_pos(s@, c, i as int);
            }
            let t = slice_chars(s, 0, i);
            assert(t@ =~= s@.take(i as int));
            t
        },
        None => {
            let t = slice_chars(s, 0, s.len());
            assert(t@ =~= s@);
            t
        },
    }
}

fn cut_after_last(s: &Vec<char>, c: char) -> (r: Vec<char>)
    ensures
        r@ == after_last(s@, c),
{
    match rfind_char(s, c) {
        Some(i) => {
            proof {
                lemma_last_pos(s@, c, i as int);
            }
            let t = slice_chars(s, i + 1, s.len());
            assert(t@ =~= s@.skip(i + 1));
            t
        },
        None => {
            let t = slice_chars(s, 0, s.len());
            assert(t@ =~= s@);
            t
        },
    }
}

fn strip_brackets(s: &Vec<char>) -> (r: Vec<char>)
    ensures
        r@ == trim_brackets(s@),
{
    let mut i: usize = 0;
    let mut j: usize = s.len();
    assert(s@.subrange(0, j as int) =~= s@);
    while i < j && (s[i] == '[' || s[i] == ']')
        invariant
            i <= j == s@.len(),
            trim_brackets(s@) == trim_brackets(s@.subrange(i as int, j as int)),
        decreases j - i,
    {
        assert(s@.subrange(i as int, j as int).drop_first() =~= s@.subrange(i + 1, j as int));
        i += 1;
    }
    while i < j && (s[j - 1] == '[' || s[j - 1] == ']')
        invariant
            i <= j <= s@.len(),
            trim_brackets(s@) == trim_brackets(s@.subrange(i as int, j as int)),
            i < j ==> !is_bracket(s@[i as int]),
        decreases j - i,
    {
        assert(s@.subrange(i as int, j as int).drop_last() =~= s@.subrange(i as int, j - 1));
        assert(s@.subrange(i as int, j as int)[0] == s@[i as int]);
        j -= 1;
    }
    proof {
        let t = s@.subrange(i as int, j as int);
        if i < j {
            assert(t[0] == s@[i as int]);
            assert(t.last() == s@[j - 1]);
        }
        assert(trim_brackets(t) == t);
    }
    slice_chars(s, i, j)
}

fn is_local(h: &Vec<char>) -> (b: bool)
    ensures
        b == is_local_host(h@),
{
    let s = string_of(h.as_slice());
    let fixed = [
        "localhost",
        "127.0.0.1",
        "0.0.0.0",
        "::1",
    ];
    let mut k: usize = 0;
    while k < 4
        invariant
            k <= 4,
            s@ == h@,
            fixed@ == seq!["localhost", "127.0.0.1", "0.0.0.0", "::1"],
            forall|m: int| 0 <= m < k ==> h@ != (#[trigger] fixed@[m])@,
        decreases 4 - k,
    {
        if s == fixed[k].to_string() {
            return true;
        }
        k += 1;
    }
    let prefixes = [
        "192.168.", "10.", "172.16.", "172.17.", "172.18.", "172.19.", "172.20.", "172.21.",
        "172.22.", "172.23.", "172.24.", "172.25.", "172.26.", "172.27.", "172.28.", "172.29.",
        "172.30.", "172.31.",
    ];
    assert(prefixes@.map_values(|p: &str| p@) =~= private_prefixes());
    let mut i: usize = 0;
    while i < 18
        invariant
            i <= 18,
            prefixes@.len() == 18,
            prefixes@.map_values(|p: &str| p@) == private_prefixes(),
            forall|m: int| 0 <= m < i ==> !has_prefix(h@, #[trigger] private_prefixes()[m]),
        decreases 18 - i,
    {
        let pv = chars_of(prefixes[i]);
        assert(private_prefixes()[i as int] == prefixes@[i as int]@);
        if starts_with_chars(h, &pv) {
            return true;
        }
        i += 1;
    }
    false
}

/// Summarizes the worker endpoint: `(shown text, kind)`.
pub fn summarize_worker_endpoint(raw: &str) -> (r: (String, String))
    ensures
        r.0@ == endpoint_summary(raw@).0,
        r.1@ == endpoint_summary(raw@).1,
{
    let v = chars_of(raw);
    proof {
        reveal_strlit("://");
    }
    let sep = chars_of("://");
    let n = v.len();
    let rest = match find_from(&v, &sep, 0) {
        Some(i) => {
            assert(sep@.len() == 3);
            assert(occurs_at(v@, sep@, i as int));
            assert(i + 3 <= n);
            let start = i + 3;
            proof {
                let j = choose|j: int| occurs_at(v@, sep@, j) && forall|k: int| 0 <= k < j ==> !occurs_at(v@, sep@, k);
                assert(j == i as int) by {
                    if j < i {
                        assert(!occurs_at(v@, sep@, j));
                    } else if i < j {
                        assert(!occurs_at(v@, sep@, i as int));
                    }
                }
                reveal_strlit("://");
            }
            let t = slice_chars(&v, start, v.len());
            assert(t@ =~= v@.skip(i + 3));
            t
        },
        None => {
            let t = slice_chars(&v, 0, v.len());
            assert(t@ =~= v@);
            t
        },
    };
    let without_scheme = trim_chars(&rest);
    let a1 = cut_before_first(&without_scheme, '/');
    let a2 = cut_before_first(&a1, '?');
    let authority = trim_chars(&a2);
    let h1 = cut_after_last(&authority, '@');
    let h2 = cut_before_first(&h1, ':');
    let host = strip_brackets(&h2);
    let normalized = lower_chars(&host);
    if normalized.len() == 0 {
        return ("not configured".to_string(), "unknown".to_string());
    }
    if is_local(&normalized) {
        return ("local/private worker".to_string(), "local".to_string());
    }
    (string_of(host.as_slice()), "remote".to_string())
}

/// The configuration as the status panel shows it.
#[derive(Debug, Clone)]
pub struct AppConfigSummary {
    pub license_backend_mode: String,
    pub license_worker_endpoint: String,
    pub license_worker_endpoint_kind: String,
    pub muapi_configured: bool,
    pub openai_configured: bool,
    pub license_worker_timeout_ms: u64,
    pub license_worker_retry_attempts: u32,
}

/// Summarizes a configuration without showing any secret.
pub fn app_config_summary(cfg: &Config) -> (r: AppConfigSummary)
    ensures
        r.license_backend_mode@ == backend_mode_name(cfg.license_backend_mode),
        r.license_worker_endpoint@ == endpoint_summary(cfg.license_worker_base_url@).0,
        r.license_worker_endpoint_kind@ == endpoint_summary(cfg.license_worker_base_url@).1,
        r.muapi_configured == (cfg.muapi_api_key@.len() > 0),
        r.openai_configured == (cfg.openai_api_key@.len() > 0),
        r.license_worker_timeout_ms == cfg.license_worker_timeout_ms,
        r.license_worker_retry_attempts == cfg.license_worker_retry_attempts,
{
    let (endpoint, kind) = summarize_worker_endpoint(cfg.license_worker_base_url.as_str());
    AppConfigSummary {
        license_backend_mode: cfg.license_backend_mode.as_str().to_string(),
        license_worker_endpoint: endpoint,
        license_worker_endpoint_kind: kind,
        muapi_configured: !cfg.muapi_api_key.as_str().is_empty(),
        openai_configured: !cfg.openai_api_key.as_str().is_empty(),
        license_worker_timeout_ms: cfg.license_worker_timeout_ms,
        license_worker_retry_attempts: cfg.license_worker_retry_attempts,
    }
}

} // verus!
