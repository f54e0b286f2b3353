//! Addresses of the core's control API.

use vstd::prelude::*;
use vstd::string::*;
use crate::text::{opt_view, owned, push_str};

verus! {

/// Where the core's control API answers.
#[derive(Debug)]
pub struct ClashClient {
    pub base_url: String,
}

/// `s` without the `/` characters at its end.
pub open spec fn without_trailing_slashes(s: Seq<char>) -> Seq<char>
    decreases s.len(),
{
    if s.len() > 0 && s.last() == '/' {
        without_trailing_slashes(s.drop_last())
    } else {
        s
    }
}

/// A name for what parsing `s` as a URL with `reqwest::Url::parse` gives:
/// the URL as text, or the parse error's message.
pub uninterp spec fn url_parse_result(s: Seq<char>) -> Result<Seq<char>, Seq<char>>;

/// A name for what appending path segment `seg` to URL `url` gives
/// (`PathSegmentsMut::push`, which percent-encodes the segment, `/` and `%`
/// included): none when the URL cannot take a path.
pub uninterp spec fn url_with_segment(url: Seq<char>, seg: Seq<char>) -> Option<Seq<char>>;

/// Wraps `reqwest::Url::parse`: the URL as text, or the error's message.
/// The contract only names the result.
#[verifier::external_body]
fn parse_url(s: &str) -> (r: Result<String, String>)
    ensures
        match r {
            Ok(u) => url_parse_result(s@) == Ok::<Seq<char>, Seq<char>>(u@),
            Err(e) => url_parse_result(s@) == Err::<Seq<char>, Seq<char>>(e@),
        },
{
    match reqwest::Url::parse(s) {
        Ok(u) => Ok(u.as_str().to_string()),
        Err(e) => Err(e.to_string()),
    }
}

/// Wraps `PathSegmentsMut::push` on the URL `url`: the URL with `seg`
/// appended as a path segment, none when it cannot take a path. The
/// contract only names the result.
#[verifier::external_body]
fn push_segment(url: &str, seg: &str) -> (r: Option<String>)
    ensures
        opt_view(r) == url_with_segment(url@, seg@),
{
    let mut u = match reqwest::Url::parse(url) {
        Ok(u) => u,
        Err(_) => return None,
    };
    match u.path_segments_mut() {
        Ok(mut p) => {
            p.push(seg);
        },
        Err(()) => return None,
    }
    Some(u.as_str().to_string())
}

/// The base of the subscription endpoints.
pub open spec fn providers_base(base: Seq<char>) -> Result<Seq<char>, Seq<char>> {
    match url_parse_result(without_trailing_slashes(base) + "/providers/proxies"@) {
        Ok(u) => Ok(u),
        Err(e) => Err("构造订阅 API 地址失败: "@ + e),
    }
}

/// The endpoint of subscription `name`.
pub open spec fn provider_endpoint(base: Seq<char>, name: Seq<char>) -> Result<Seq<char>, Seq<char>> {
    match providers_base(base) {
        Ok(u) => match url_with_segment(u, name) {
            Some(v) => Ok(v),
            None => Err("构造订阅 API 地址失败: base URL 不支持路径拼接"@),
        },
        Err(e) => Err(e),
    }
}

/// The health-check endpoint of subscription `name`.
pub open spec fn provider_healthcheck_endpoint(base: Seq<char>, name: Seq<char>) -> Result<Seq<char>, Seq<char>> {
    match provider_endpoint(base, name) {
        Ok(u) => match url_with_segment(u, "healthcheck"@) {
            Some(v) => Ok(v),
            None => Err("构造订阅健康检查 API 地址失败: base URL 不支持路径拼接"@),
        },
        Err(e) => Err(e),
    }
}

/// A result with its texts as plain characters.
pub open spec fn result_view(r: Result<String, String>) -> Result<Seq<char>, Seq<char>> {
    match r {
        Ok(u) => Ok(u@),
        Err(e) => Err(e@),
    }
}

/// `s` without its trailing `/` characters.
fn trim_trailing_slashes(s: &str) -> (r: String)
    ensures
        r@ == without_trailing_slashes(s@),
{
    let mut n = s.unicode_len();
    proof {
        assert(s@.subrange(0, n as int) =~= s@);
    }
    while n > 0 && s.get_char(n - 1) == '/'
        invariant
            n <= s@.len(),
            without_trailing_slashes(s@) == without_trailing_slashes(s@.subrange(0, n as int)),
        decreases n,
    {
        assert(s@.subrange(0, n as int).drop_last() =~= s@.subrange(0, n - 1));
        n = n - 1;
    }
    owned(s.substring_char(0, n))
}

impl ClashClient {
    /// A client of the API at `base_url`.
    pub fn new(base_url: String) -> (r: ClashClient)
        ensures
            r.base_url == base_url,
    {
        ClashClient { base_url }
    }

    /// The address of API path `path`: the base without trailing slashes,
    /// then the path.
    pub fn url(&self, path: &str) -> (r: String)
        ensures
            r@ == without_trailing_slashes(self.base_url@) + path@,
    {
        let mut r = trim_trailing_slashes(self.base_url.as_str());
        push_str(&mut r, path);
        r
    }

    /// The base of the subscription endpoints.
    pub fn providers_base_url(&self) -> (r: Result<String, String>)
        ensures
            result_view(r) == providers_base(self.base_url@),
    {
        let base = self.url("/providers/proxies");
        match parse_url(base.as_str()) {
            Ok(u) => Ok(u),
            Err(e) => {
                let mut m = owned("构造订阅 API 地址失败: ");
                push_str(&mut m, e.as_str());
                Err(m)
            },
        }
    }

    /// The endpoint of subscription `name`, the name kept as one path
    /// segment.
    pub fn provider_endpoint_url(&self, name: &str) -> (r: Result<String, String>)
        ensures
            result_view(r) == provider_endpoint(self.base_url@, name@),
    {
        let base = match self.providers_base_url() {
            Ok(b) => b,
            Err(e) => {
                return Err(e);
            },
        };
        match push_segment(base.as_str(), name) {
            Some(u) => Ok(u),
            None => Err(owned("构造订阅 API 地址失败: base URL 不支持路径拼接")),
        }
    }

    /// The health-check endpoint of subscription `name`.
    pub fn provider_healthcheck_endpoint_url(&self, name: &str) -> (r: Result<String, String>)
        ensures
            result_view(r) == provider_healthcheck_endpoint(self.base_url@, name@),
    {
        let url = match self.provider_endpoint_url(name) {
            Ok(u) => u,
            Err(e) => {
                return Err(e);
            },
        };
        match push_segment(url.as_str(), "healthcheck") {
            Some(u) => Ok(u),
            None => Err(owned("构造订阅健康检查 API 地址失败: base URL 不支持路径拼接")),
        }
    }
}

} // verus!
