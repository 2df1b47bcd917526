//! Absolute URLs, held as the plain parts the library's logic reads.
//!
//! Parsing and reference resolution are done by the `url` crate (through
//! `reqwest`, which re-exports it); the library sees only the resulting
//! serialization, host and path.

use vstd::prelude::*;

verus! {

/// The parts of an absolute URL that the library's logic reads.
pub ghost struct UrlModel {
    /// The URL's serialization.
    pub text: Seq<char>,
    /// The URL's host.
    pub host: Seq<char>,
    /// The URL's path.
    pub path: Seq<char>,
}

/// What the `url` parser makes of `s`: the serialization, host and path of
/// the parsed URL, or `None` when `s` does not parse as an absolute URL with
/// a host.
pub uninterp spec fn parsed_url(s: Seq<char>) -> Option<UrlModel>;

/// What the `url` resolver makes of the reference `rel` taken against the
/// absolute URL written `base`: the resolved URL's serialization, host and
/// path, or `None` when `base` does not parse, `rel` does not resolve, or
/// the resolved URL has no host.
pub uninterp spec fn resolved_url(base: Seq<char>, rel: Seq<char>) -> Option<UrlModel>;

/// An absolute URL with a host.
#[derive(Debug)]
pub struct AbsUrl {
    /// The URL's serialization.
    pub text: String,
    /// The URL's host.
    pub host: String,
    /// The URL's path.
    pub path: String,
}

impl View for AbsUrl {
    type V = UrlModel;

    open spec fn view(&self) -> UrlModel {
        UrlModel { text: self.text@, host: self.host@, path: self.path@ }
    }
}

impl Clone for AbsUrl {
    fn clone(&self) -> (r: Self)
        ensures
            r@ == self@,
    {
        AbsUrl { text: self.text.clone(), host: self.host.clone(), path: self.path.clone() }
    }
}

impl AbsUrl {
    /// Relies on the `url` crate's `Url::parse`, `Url::as_str`,
    /// `Url::host_str` and `Url::path`: parses an absolute URL and hands out
    /// its serialization, host and path.
    #[verifier::external_body]
    pub fn parse(s: &str) -> (r: Option<AbsUrl>)
        ensures
            r matches Some(u) ==> parsed_url(s@) == Some(u@),
            r is None <==> parsed_url(s@) is None,
    {
        let u = match reqwest::Url::parse(s) {
            Ok(u) => u,
            Err(_) => return None,
        };
        let host = match u.host_str() {
            Some(h) => h.to_string(),
            None => return None,
        };
        let path = u.path().to_string();
        let text = u.as_str().to_string();
        Some(AbsUrl { text, host, path })
    }

    /// Relies on the `url` crate's `ParseOptions::base_url` and
    /// `ParseOptions::parse`: resolves the possibly-relative reference `rel`
    /// against the absolute URL written `base`, per standard URL resolution.
    #[verifier::external_body]
    pub fn resolve(base: &str, rel: &str) -> (r: Option<AbsUrl>)
        ensures
            r matches Some(u) ==> resolved_url(base@, rel@) == Some(u@),
            r is None <==> resolved_url(base@, rel@) is None,
    {
        let b = match reqwest::Url::parse(base) {
            Ok(b) => b,
            Err(_) => return None,
        };
        let u = match reqwest::Url::options().base_url(Some(&b)).parse(rel) {
            Ok(u) => u,
            Err(_) => return None,
        };
        let host = match u.host_str() {
            Some(h) => h.to_string(),
            None => return None,
        };
        let path = u.path().to_string();
        let text = u.as_str().to_string();
        Some(AbsUrl { text, host, path })
    }
}

/// Parses every seed URL handed in at startup: all of them in order, or
/// `None` as soon as one is malformed or has no host.
pub fn parse_seed_urls(seeds: &Vec<String>) -> (r: Option<Vec<AbsUrl>>)
    ensures
        r matches Some(us) ==> us@.len() == seeds@.len() && (forall|i: int|
            0 <= i < us@.len() ==> parsed_url(#[trigger] seeds@[i]@) == Some(us@[i]@)),
        r is None <==> (exists|i: int|
            0 <= i < seeds@.len() && parsed_url(#[trigger] seeds@[i]@) is None),
{
    let mut out: Vec<AbsUrl> = Vec::new();
    let mut i: usize = 0;
    while i < seeds.len()
        invariant
            0 <= i <= seeds@.len(),
            out@.len() == i,
            forall|j: int| 0 <= j < i ==> parsed_url(#[trigger] seeds@[j]@) == Some(out@[j]@),
        decreases seeds@.len() - i,
    {
        match AbsUrl::parse(seeds[i].as_str()) {
            Some(u) => out.push(u),
            None => {
                return None;
            },
        }
        i += 1;
    }
    Some(out)
}

} // verus!
