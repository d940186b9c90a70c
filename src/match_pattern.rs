//! URL match patterns (`<all_urls>`, `*://*.example.com/*`, ...) and the
//! parts of a page URL they are tested against.

use vstd::prelude::*;
use crate::text::{
    chars_equal, chars_of, ends_with, ends_with_exec, find_exec, find_from, slice_chars,
    starts_with, starts_with_exec, string_of,
};

verus! {

/// What `url::Url::parse` makes of a string: `None` when it is no URL, else
/// the URL's scheme, its host (when it has one) and its path.
pub uninterp spec fn parsed_url_parts(s: Seq<char>) -> Option<(Seq<char>, Option<Seq<char>>, Seq<char>)>;

/// Relies on url::Url::parse, then reads the parsed URL's scheme(),
/// host_str() and path().
#[verifier::external_body]
fn url_parts(s: &str) -> (r: Option<(String, Option<String>, String)>)
    ensures
        match (parsed_url_parts(s@), r) {
            (None, None) => true,
            (Some(p), Some(t)) => t.0@ == p.0 && t.2@ == p.2 && match (p.1, t.1) {
                (None, None) => true,
                (Some(h), Some(th)) => th@ == h,
                _ => false,
            },
            _ => false,
        },
{
    match url::Url::parse(s) {
        Ok(u) => Some((u.scheme().to_string(), u.host_str().map(|h| h.to_string()), u.path().to_string())),
        Err(_) => None,
    }
}

/// The parts of a page URL that a match pattern looks at.
pub struct PageUrl {
    pub scheme: String,
    pub host: Option<String>,
    pub path: String,
}

pub struct UrlSpec {
    pub scheme: Seq<char>,
    pub host: Option<Seq<char>>,
    pub path: Seq<char>,
}

impl View for PageUrl {
    type V = UrlSpec;

    open spec fn view(&self) -> UrlSpec {
        UrlSpec {
            scheme: self.scheme@,
            host: match self.host {
                Some(h) => Some(h@),
                None => None,
            },
            path: self.path@,
        }
    }
}

impl PageUrl {
    /// Parses an absolute URL; `None` when the text is no URL.
    pub fn parse(s: &str) -> (r: Option<PageUrl>)
        ensures
            match parsed_url_parts(s@) {
                None => r is None,
                Some(p) => r is Some && r->0@ == (UrlSpec { scheme: p.0, host: p.1, path: p.2 }),
            },
    {
        match url_parts(s) {
            Some((scheme, host, path)) => Some(PageUrl { scheme, host, path }),
            None => None,
        }
    }
}

pub enum SchemeMatch {
    Any,
    Exact(String),
}

pub enum HostMatch {
    Any,
    Exact(String),
    /// `*.example.com`: the domain itself and every subdomain.
    Suffix(String),
}

/// A parsed match pattern.
pub struct MatchPattern {
    pub raw: String,
    pub scheme: SchemeMatch,
    pub host: HostMatch,
    pub path: String,
}

pub enum SchemeSpec {
    Any,
    Exact(Seq<char>),
}

pub enum HostSpec {
    Any,
    Exact(Seq<char>),
    Suffix(Seq<char>),
}

pub struct PatternSpec {
    pub scheme: SchemeSpec,
    pub host: HostSpec,
    pub path: Seq<char>,
}

impl View for HostMatch {
    type V = HostSpec;

    open spec fn view(&self) -> HostSpec {
        match self {
            HostMatch::Any => HostSpec::Any,
            HostMatch::Exact(h) => HostSpec::Exact(h@),
            HostMatch::Suffix(h) => HostSpec::Suffix(h@),
        }
    }
}

impl View for MatchPattern {
    type V = PatternSpec;

    open spec fn view(&self) -> PatternSpec {
        PatternSpec {
            scheme: match self.scheme {
                SchemeMatch::Any => SchemeSpec::Any,
                SchemeMatch::Exact(s) => SchemeSpec::Exact(s@),
            },
            host: self.host@,
            path: self.path@,
        }
    }
}

pub open spec fn host_spec_of(h: Seq<char>) -> HostSpec {
    if h == "*"@ {
        HostSpec::Any
    } else if starts_with(h, "*."@) {
        HostSpec::Suffix(h.subrange(2, h.len() as int))
    } else {
        HostSpec::Exact(h)
    }
}

/// What a pattern string parses to: `<all_urls>`, or `scheme://host/path`
/// split at the first `://` and then at the first `/` (path `/*` when the
/// host is not followed by one). `None` without a `://`.
pub open spec fn parse_spec(p: Seq<char>) -> Option<PatternSpec> {
    if p == "<all_urls>"@ {
        Some(PatternSpec { scheme: SchemeSpec::Any, host: HostSpec::Any, path: "*"@ })
    } else {
        match find_from(p, "://"@, 0) {
            None => None,
            Some(k) => {
                let scheme_str = p.subrange(0, k as int);
                let rest = p.subrange(k as int + 3, p.len() as int);
                let host_str = match find_from(rest, "/"@, 0) {
                    Some(j) => rest.subrange(0, j as int),
                    None => rest,
                };
                let path = match find_from(rest, "/"@, 0) {
                    Some(j) => rest.subrange(j as int, rest.len() as int),
                    None => "/*"@,
                };
                Some(
                    PatternSpec {
                        scheme: if scheme_str == "*"@ {
                            SchemeSpec::Any
                        } else {
                            SchemeSpec::Exact(scheme_str)
                        },
                        host: host_spec_of(host_str),
                        path,
                    },
                )
            },
        }
    }
}

pub open spec fn scheme_ok(m: SchemeSpec, scheme: Seq<char>) -> bool {
    match m {
        SchemeSpec::Any => scheme == "http"@ || scheme == "https"@,
        SchemeSpec::Exact(s) => scheme == s,
    }
}

pub open spec fn host_ok(m: HostSpec, host: Option<Seq<char>>) -> bool {
    match host {
        None => false,
        Some(h) => match m {
            HostSpec::Any => true,
            HostSpec::Exact(e) => h == e,
            HostSpec::Suffix(s) => h == s || ends_with(h, "."@ + s),
        },
    }
}

pub open spec fn path_ok(glob: Seq<char>, path: Seq<char>) -> bool {
    if glob == "/*"@ || glob == "*"@ {
        true
    } else if ends_with(glob, "*"@) {
        starts_with(path, glob.drop_last())
    } else {
        path == glob
    }
}

/// Whether a parsed pattern accepts a URL.
pub open spec fn matches_spec(m: PatternSpec, u: UrlSpec) -> bool {
    scheme_ok(m.scheme, u.scheme) && host_ok(m.host, u.host) && path_ok(m.path, u.path)
}

/// Whether a pattern string accepts a URL; a pattern that does not parse
/// accepts nothing.
pub open spec fn pattern_accepts(p: Seq<char>, u: UrlSpec) -> bool {
    match parse_spec(p) {
        Some(m) => matches_spec(m, u),
        None => false,
    }
}

fn host_match_of(h: Vec<char>) -> (r: HostMatch)
    ensures
        r@ == host_spec_of(h@),
{
    proof {
        reveal_strlit("*");
        reveal_strlit("*.");
    }
    let star = chars_of("*");
    let star_dot = chars_of("*.");
    if chars_equal(&h, &star) {
        HostMatch::Any
    } else if starts_with_exec(&h, &star_dot) {
        let rest = slice_chars(&h, 2, h.len());
        HostMatch::Suffix(string_of(&rest))
    } else {
        HostMatch::Exact(string_of(&h))
    }
}

impl MatchPattern {
    pub fn parse(pattern: &str) -> (r: Option<MatchPattern>)
        ensures
            match parse_spec(pattern@) {
                None => r is None,
                Some(m) => r is Some && r->0@ == m && r->0.raw@ == pattern@,
            },
    {
        proof {
            reveal_strlit("<all_urls>");
            reveal_strlit("://");
            reveal_strlit("/");
            reveal_strlit("/*");
            reveal_strlit("*");
        }
        let p = chars_of(pattern);
        let all_urls = chars_of("<all_urls>");
        if chars_equal(&p, &all_urls) {
            return Some(
                MatchPattern {
                    raw: string_of(&p),
                    scheme: SchemeMatch::Any,
                    host: HostMatch::Any,
                    path: string_of(&chars_of("*")),
                },
            );
        }
        let sep = chars_of("://");
        assert(sep@.len() == 3);
        let k = match find_exec(&p, &sep) {
            Some(k) => k,
            None => return None,
        };
        assert(k + 3 <= p@.len());
        let scheme_str = slice_chars(&p, 0, k);
        let plen = p.len();
        let rest = slice_chars(&p, k + 3, plen);
        let scheme = if chars_equal(&scheme_str, &chars_of("*")) {
            SchemeMatch::Any
        } else {
            SchemeMatch::Exact(string_of(&scheme_str))
        };
        let slash = chars_of("/");
        let (host_str, path) = match find_exec(&rest, &slash) {
            Some(j) => (slice_chars(&rest, 0, j), slice_chars(&rest, j, rest.len())),
            None => (rest, chars_of("/*")),
        };
        let host = host_match_of(host_str);
        Some(MatchPattern { raw: string_of(&p), scheme, host, path: string_of(&path) })
    }

    pub fn matches_url(&self, url: &PageUrl) -> (r: bool)
        ensures
            r == matches_spec(self@, url@),
    {
        proof {
            reveal_strlit("http");
            reveal_strlit("https");
            reveal_strlit(".");
            reveal_strlit("/*");
            reveal_strlit("*");
        }
        let scheme = chars_of(url.scheme.as_str());
        match &self.scheme {
            SchemeMatch::Any => {
                if !chars_equal(&scheme, &chars_of("http")) && !chars_equal(&scheme, &chars_of("https")) {
                    return false;
                }
            },
            SchemeMatch::Exact(s) => {
                if !chars_equal(&scheme, &chars_of(s.as_str())) {
                    return false;
                }
            },
        }
        match &url.host {
            None => return false,
            Some(h) => {
                let host = chars_of(h.as_str());
                match &self.host {
                    HostMatch::Any => {},
                    HostMatch::Exact(e) => {
                        if !chars_equal(&host, &chars_of(e.as_str())) {
                            return false;
                        }
                    },
                    HostMatch::Suffix(s) => {
                        let suffix = chars_of(s.as_str());
                        let mut dotted = chars_of(".");
                        let mut tail = suffix.clone();
                        dotted.append(&mut tail);
                        if !chars_equal(&host, &suffix) && !ends_with_exec(&host, &dotted) {
                            return false;
                        }
                    },
                }
            },
        }
        let glob = chars_of(self.path.as_str());
        if !chars_equal(&glob, &chars_of("/*")) && !chars_equal(&glob, &chars_of("*")) {
            let path = chars_of(url.path.as_str());
            if ends_with_exec(&glob, &chars_of("*")) {
                let prefix = slice_chars(&glob, 0, glob.len() - 1);
                if !starts_with_exec(&path, &prefix) {
                    return false;
                }
            } else if !chars_equal(&path, &glob) {
                return false;
            }
        }
        true
    }
}

} // verus!
