//! Proxy addresses for an HTTP client: one for plain and one for TLS traffic.
use vstd::prelude::*;

verus! {

/// Proxy address to use for each scheme of target URL.
#[derive(Debug, PartialEq, Eq)]
pub struct ProxyDict {
    pub http: String,
    pub https: String,
}

/// `s` with each `https`, scanned left to right without overlap, replaced by `http`.
pub open spec fn downgrade_https(s: Seq<char>) -> Seq<char>
    decreases s.len(),
{
    if s.len() < 5 {
        s
    } else if s.take(5) == "https"@ {
        "http"@ + downgrade_https(s.skip(5))
    } else {
        seq![s[0]] + downgrade_https(s.skip(1))
    }
}

/// Credentials are used only when both a user name and a password are given.
pub open spec fn credentials(username: Option<&str>, password: Option<&str>) -> Option<(Seq<char>, Seq<char>)> {
    match (username, password) {
        (Some(u), Some(p)) => Some((u@, p@)),
        _ => None,
    }
}

/// `scheme://[user:password@]host:port`.
pub open spec fn proxy_address(
    scheme: Seq<char>,
    host: Seq<char>,
    port: Seq<char>,
    creds: Option<(Seq<char>, Seq<char>)>,
) -> Seq<char> {
    match creds {
        Some((u, p)) => scheme + "://"@ + u + ":"@ + p + "@"@ + host + ":"@ + port,
        None => scheme + "://"@ + host + ":"@ + port,
    }
}

fn starts_https_at(s: &str, i: usize) -> (r: bool)
    requires
        i <= s@.len(),
    ensures
        r == (i + 5 <= s@.len() && s@.skip(i as int).take(5) == "https"@),
{
    proof {
        reveal_strlit("https");
    }
    let n = s.unicode_len();
    if n - i < 5 {
        return false;
    }
    let r = s.get_char(i) == 'h' && s.get_char(i + 1) == 't' && s.get_char(i + 2) == 't'
        && s.get_char(i + 3) == 'p' && s.get_char(i + 4) == 's';
    proof {
        let t = s@.skip(i as int).take(5);
        let w = "https"@;
        assert(w.len() == 5 && w[0] == 'h' && w[1] == 't' && w[2] == 't' && w[3] == 'p' && w[4] == 's');
        assert(t[0] == s@[i as int] && t[1] == s@[i + 1] && t[2] == s@[i + 2] && t[3] == s@[i + 3] && t[4] == s@[i + 4]);
        if r {
            assert(t =~= w);
        } else if t == w {
            assert(t[0] == w[0] && t[1] == w[1] && t[2] == w[2] && t[3] == w[3] && t[4] == w[4]);
        }
    }
    r
}

/// `s` with each `https` replaced by `http`.
fn downgraded(s: &str) -> (r: String)
    ensures
        r@ == downgrade_https(s@),
{
    proof {
        reveal_strlit("http");
    }
    let n = s.unicode_len();
    let mut out = String::new();
    let mut i: usize = 0;
    assert(s@.skip(0) =~= s@);
    assert(out@ + downgrade_https(s@) =~= downgrade_https(s@));
    while i < n
        invariant
            n == s@.len(),
            i <= n,
            downgrade_https(s@) == out@ + downgrade_https(s@.skip(i as int)),
        decreases n - i,
    {
        let ghost rest = s@.skip(i as int);
        if n - i < 5 {
            let tail = s.substring_char(i, n);
            assert(tail@ == rest);
            out.append(tail);
            i = n;
            assert(s@.skip(n as int) =~= Seq::<char>::empty());
            assert(out@ =~= out@ + downgrade_https(s@.skip(i as int)));
        } else if starts_https_at(s, i) {
            assert(rest.skip(5) =~= s@.skip(i + 5));
            out.append("http");
            i = i + 5;
        } else {
            assert(rest.skip(1) =~= s@.skip(i + 1));
            assert(rest[0] == s@[i as int]);
            let one = s.substring_char(i, i + 1);
            assert(one@ =~= seq![rest[0]]);
            out.append(one);
            i = i + 1;
        }
    }
    assert(s@.skip(n as int) =~= Seq::<char>::empty());
    assert(out@ =~= downgrade_https(s@));
    out
}

fn address(
    scheme: &str,
    host: &str,
    port: &str,
    username: Option<&str>,
    password: Option<&str>,
) -> (r: String)
    ensures
        r@ == proxy_address(scheme@, host@, port@, credentials(username, password)),
{
    let mut r = String::from_str(scheme);
    r.append("://");
    match (username, password) {
        (Some(u), Some(p)) => {
            r.append(u);
            r.append(":");
            r.append(p);
            r.append("@");
        },
        _ => {},
    }
    r.append(host);
    r.append(":");
    r.append(port);
    assert(r@ =~= proxy_address(scheme@, host@, port@, credentials(username, password)));
    r
}

/// Proxy addresses for `host:port`: for `http` targets the proxy type with `https`
/// turned into `http`, for `https` targets the proxy type as given. Credentials go
/// in only when both are given.
pub fn proxy_dict(
    proxy_type: &str,
    host: &str,
    port: &str,
    username: Option<&str>,
    password: Option<&str>,
) -> (r: ProxyDict)
    ensures
        r.http@ == proxy_address(downgrade_https(proxy_type@), host@, port@, credentials(username, password)),
        r.https@ == proxy_address(proxy_type@, host@, port@, credentials(username, password)),
{
    let plain = downgraded(proxy_type);
    let http = address(plain.as_str(), host, port, username, password);
    let https = address(proxy_type, host, port, username, password);
    ProxyDict { http, https }
}

} // verus!
