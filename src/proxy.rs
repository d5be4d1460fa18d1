//! Choosing outbound proxies from the recognised environment settings, and
//! reading hosts and ports out of URLs.
use vstd::prelude::*;

verus! {

/// What `Url::parse` followed by `host_str` and `port_or_known_default`
/// yields for a text: the host and the port, each when there is one.
pub uninterp spec fn url_parts(s: Seq<char>) -> (Option<Seq<char>>, Option<u16>);

pub open spec fn opt_view(o: Option<String>) -> Option<Seq<char>> {
    match o {
        Some(s) => Some(s@),
        None => None,
    }
}

/// Relies on `url::Url::parse` (re-exported by reqwest), then `Url::host_str`
/// and `Url::port_or_known_default`: the host and port of a URL, or neither
/// when it does not parse.
#[verifier::external_body]
fn split_url(s: &str) -> (r: (Option<String>, Option<u16>))
    ensures
        (opt_view(r.0), r.1) == url_parts(s@),
{
    match reqwest::Url::parse(s) {
        Ok(u) => (u.host_str().map(String::from), u.port_or_known_default()),
        Err(_) => (None, None),
    }
}

/// The host named by a URL, empty when the URL has none or does not parse.
pub open spec fn host_or_empty(target: Seq<char>) -> Seq<char> {
    match url_parts(target).0 {
        Some(h) => h,
        None => Seq::empty(),
    }
}

/// The host for the `Host` header of a request to `target`; empty when the
/// target does not parse as a URL with a host.
pub fn request_host(target: &str) -> (r: String)
    ensures
        r@ == host_or_empty(target@),
{
    let (host, _port) = split_url(target);
    match host {
        Some(h) => h,
        None => String::new(),
    }
}

/// The address to probe for a proxy URL: its host and its port (explicit,
/// or the scheme's default), when it has both.
pub fn proxy_endpoint(proxy_url: &str) -> (r: Option<(String, u16)>)
    ensures
        match r {
            Some((h, p)) => url_parts(proxy_url@) == (Some(h@), Some(p)),
            None => !(url_parts(proxy_url@).0 is Some && url_parts(proxy_url@).1 is Some),
        },
{
    let (host, port) = split_url(proxy_url);
    match (host, port) {
        (Some(h), Some(p)) => Some((h, p)),
        _ => None,
    }
}

/// The proxy settings of the process, one field per recognised variable.
#[derive(Debug, Clone)]
pub struct ProxyEnv {
    /// `ALL_PROXY`
    pub all_upper: Option<String>,
    /// `all_proxy`
    pub all_lower: Option<String>,
    /// `HTTP_PROXY`
    pub http_upper: Option<String>,
    /// `http_proxy`
    pub http_lower: Option<String>,
    /// `HTTPS_PROXY`
    pub https_upper: Option<String>,
    /// `https_proxy`
    pub https_lower: Option<String>,
}

/// The client to build: direct, or with proxy rules for `https://` targets,
/// `http://` targets, and everything else.
#[derive(Debug, Clone)]
pub enum ProxyPlan {
    Direct,
    Proxied { https: Option<String>, http: Option<String>, all: Option<String> },
}

pub open spec fn opt_seq(o: Option<String>) -> Seq<Seq<char>> {
    match o {
        Some(s) => seq![s@],
        None => Seq::empty(),
    }
}

/// The lower-case variable wins over the upper-case one.
pub open spec fn lower_first(lower: Option<String>, upper: Option<String>) -> Option<Seq<char>> {
    if lower is Some {
        opt_view(lower)
    } else {
        opt_view(upper)
    }
}

impl ProxyEnv {
    pub open spec fn any_set(&self) -> bool {
        self.all_upper is Some || self.all_lower is Some || self.http_upper is Some
            || self.http_lower is Some || self.https_upper is Some || self.https_lower is Some
    }

    /// The proxy URLs to probe, in the order they are tried.
    pub open spec fn probe_seq(&self) -> Seq<Seq<char>> {
        opt_seq(self.all_upper) + opt_seq(self.all_lower) + opt_seq(self.http_upper) + opt_seq(
            self.http_lower,
        ) + opt_seq(self.https_upper) + opt_seq(self.https_lower)
    }

    /// Whether any recognised proxy variable is set.
    pub fn has_proxy(&self) -> (r: bool)
        ensures
            r == self.any_set(),
    {
        self.all_upper.is_some() || self.all_lower.is_some() || self.http_upper.is_some()
            || self.http_lower.is_some() || self.https_upper.is_some()
            || self.https_lower.is_some()
    }

    /// The proxy URLs to probe for liveness, in order: `ALL_PROXY`,
    /// `all_proxy`, `HTTP_PROXY`, `http_proxy`, `HTTPS_PROXY`, `https_proxy`,
    /// each one that is set.
    pub fn probe_order(&self) -> (r: Vec<String>)
        ensures
            r@.map_values(|s: String| s@) == self.probe_seq(),
    {
        let mut r: Vec<String> = Vec::new();
        push_some(&mut r, &self.all_upper);
        push_some(&mut r, &self.all_lower);
        push_some(&mut r, &self.http_upper);
        push_some(&mut r, &self.http_lower);
        push_some(&mut r, &self.https_upper);
        push_some(&mut r, &self.https_lower);
        proof {
            assert(r@.map_values(|s: String| s@) =~= self.probe_seq());
        }
        r
    }

    /// The client to build, given whether one of the probed proxies answered.
    /// No proxy, or none reachable, means a direct client: a stale variable
    /// must not block every download.
    pub fn plan(&self, reachable: bool) -> (r: ProxyPlan)
        ensures
            !self.any_set() || !reachable ==> r is Direct,
            self.any_set() && reachable ==> (r matches ProxyPlan::Proxied { https, http, all }
                && opt_view(https) == lower_first(self.https_lower, self.https_upper)
                && opt_view(http) == lower_first(self.http_lower, self.http_upper)
                && opt_view(all) == lower_first(self.all_lower, self.all_upper)),
    {
        if !self.has_proxy() || !reachable {
            return ProxyPlan::Direct;
        }
        ProxyPlan::Proxied {
            https: lower_or_upper(&self.https_lower, &self.https_upper),
            http: lower_or_upper(&self.http_lower, &self.http_upper),
            all: lower_or_upper(&self.all_lower, &self.all_upper),
        }
    }
}

fn push_some(v: &mut Vec<String>, o: &Option<String>)
    ensures
        final(v)@.map_values(|s: String| s@) == old(v)@.map_values(|s: String| s@) + opt_seq(*o),
{
    let ghost before = v@;
    match o {
        Some(s) => {
            v.push(s.clone());
        },
        None => {},
    }
    proof {
        assert(v@.map_values(|s: String| s@) =~= before.map_values(|s: String| s@) + opt_seq(*o));
    }
}

fn lower_or_upper(lower: &Option<String>, upper: &Option<String>) -> (r: Option<String>)
    ensures
        opt_view(r) == lower_first(*lower, *upper),
{
    match lower {
        Some(s) => Some(s.clone()),
        None => match upper {
            Some(s) => Some(s.clone()),
            None => None,
        },
    }
}

} // verus!
