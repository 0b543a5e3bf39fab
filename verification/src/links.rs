//! URLs, as the `url` crate parses and joins them, and the schemes the
//! browser knows.
use vstd::prelude::*;
use crate::chars::str_eq;
use crate::util::first_index;

verus! {

/// Why a URL did not parse: whether it was relative with no base to join it
/// to, and the `url` crate's description of the problem.
#[derive(Debug, Clone)]
pub struct UrlError {
    pub relative: bool,
    pub message: String,
}

/// What `url::Url::parse` makes of `s`: the serialization of the URL, or,
/// where it fails, whether the error is `RelativeUrlWithoutBase`.
pub uninterp spec fn url_parse(s: Seq<char>) -> Result<Seq<char>, bool>;

/// The serialization of `s` joined to the URL `base`, as `url::Url::join`
/// makes it, `None` where `base` does not parse or the join fails.
pub uninterp spec fn url_join(base: Seq<char>, s: Seq<char>) -> Option<Seq<char>>;

/// The scheme of a URL serialization: what comes before its first `:`.
pub open spec fn scheme_part(u: Seq<char>) -> Seq<char> {
    match first_index(u, ':') {
        Some(i) => u.take(i),
        None => u,
    }
}

/// Calls `url::Url::parse` and serializes the URL. What it gives is a
/// function of `s`, named here; the text of `message` is not stated.
#[verifier::external_body]
pub fn parse_url(s: &str) -> (r: Result<String, UrlError>)
    ensures
        match url_parse(s@) {
            Ok(u) => r matches Ok(x) && x@ == u,
            Err(rel) => r matches Err(e) && e.relative == rel,
        },
{
    match url::Url::parse(s) {
        Ok(u) => Ok(u.to_string()),
        Err(e) => Err(UrlError { relative: e == url::ParseError::RelativeUrlWithoutBase, message: e.to_string() }),
    }
}

/// Calls `url::Url::parse` on `base` and `url::Url::join` with `s`, and
/// serializes the result. The result is a function of `base` and `s`, named
/// here; the error's fields are not stated.
#[verifier::external_body]
pub fn join_url(base: &str, s: &str) -> (r: Result<String, UrlError>)
    ensures
        r matches Ok(u) ==> url_join(base@, s@) == Some(u@),
        r is Err ==> url_join(base@, s@) is None,
{
    let joined = match url::Url::parse(base) {
        Ok(b) => b.join(s),
        Err(e) => Err(e),
    };
    match joined {
        Ok(u) => Ok(u.to_string()),
        Err(e) => Err(UrlError { relative: e == url::ParseError::RelativeUrlWithoutBase, message: e.to_string() }),
    }
}

/// Calls `url::Url::parse` and `url::Url::scheme`. The scheme is the part of
/// the URL's serialization before its first `:`, as the crate's parser
/// writes it (a scheme holds no `:`); a failure is as `parse_url` gives it.
#[verifier::external_body]
pub fn url_scheme(s: &str) -> (r: Result<String, UrlError>)
    ensures
        match url_parse(s@) {
            Ok(u) => r matches Ok(x) && x@ == scheme_part(u),
            Err(rel) => r matches Err(e) && e.relative == rel,
        },
{
    match url::Url::parse(s) {
        Ok(u) => Ok(u.scheme().to_string()),
        Err(e) => Err(UrlError { relative: e == url::ParseError::RelativeUrlWithoutBase, message: e.to_string() }),
    }
}

/// `url_str` as a URL, or, where it is relative, joined to `base`.
pub fn join_if_relative(base: &str, url_str: &str) -> (r: Result<String, UrlError>)
    ensures
        match url_parse(url_str@) {
            Ok(u) => r matches Ok(x) && x@ == u,
            Err(true) => match r {
                Ok(x) => url_join(base@, url_str@) == Some(x@),
                Err(_) => url_join(base@, url_str@) is None,
            },
            Err(false) => r is Err,
        },
{
    match parse_url(url_str) {
        Ok(u) => Ok(u),
        Err(e) => if e.relative {
            join_url(base, url_str)
        } else {
            Err(e)
        },
    }
}

/// The schemes of URLs.
#[derive(Clone, Debug)]
pub enum Scheme {
    Gemini,
    Gopher,
    Http,
    Https,
    Unknown(String),
}

/// The scheme that a scheme's name stands for.
pub open spec fn scheme_named(s: Seq<char>) -> Option<Scheme> {
    if s == "gemini"@ {
        Some(Scheme::Gemini)
    } else if s == "gopher"@ {
        Some(Scheme::Gopher)
    } else if s == "http"@ {
        Some(Scheme::Http)
    } else if s == "https"@ {
        Some(Scheme::Https)
    } else {
        None
    }
}

impl Scheme {
    /// The scheme of the URL `s`.
    pub fn from_str(s: &str) -> (r: Result<Scheme, UrlError>)
        ensures
            match url_parse(s@) {
                Err(_) => r is Err,
                Ok(u) => match scheme_named(scheme_part(u)) {
                    Some(k) => r matches Ok(x) && x == k,
                    None => r matches Ok(Scheme::Unknown(n)) && n@ == scheme_part(u),
                },
            },
    {
        match url_scheme(s) {
            Err(e) => Err(e),
            Ok(name) => {
                let n = name.as_str();
                if str_eq(n, "gemini") {
                    Ok(Scheme::Gemini)
                } else if str_eq(n, "gopher") {
                    Ok(Scheme::Gopher)
                } else if str_eq(n, "http") {
                    Ok(Scheme::Http)
                } else if str_eq(n, "https") {
                    Ok(Scheme::Https)
                } else {
                    Ok(Scheme::Unknown(name))
                }
            },
        }
    }

    /// The scheme's name.
    pub fn to_string(&self) -> (r: String)
        ensures
            match self {
                Scheme::Gemini => r@ == "gemini"@,
                Scheme::Gopher => r@ == "gopher"@,
                Scheme::Http => r@ == "http"@,
                Scheme::Https => r@ == "https"@,
                Scheme::Unknown(s) => r@ == s@,
            },
    {
        match self {
            Scheme::Gemini => String::from_str("gemini"),
            Scheme::Gopher => String::from_str("gopher"),
            Scheme::Http => String::from_str("http"),
            Scheme::Https => String::from_str("https"),
            Scheme::Unknown(s) => s.clone(),
        }
    }
}

} // verus!
