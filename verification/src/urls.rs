//! URLs as the request logic reads them: the serialization, the scheme and
//! the host, computed by the `url` crate.

use vstd::prelude::*;

verus! {

/// A parsed URL: its serialization, its scheme and its host (if it has one).
pub struct UrlInfo {
    pub href: String,
    pub scheme: String,
    pub host: Option<String>,
}

pub struct UrlView {
    pub href: Seq<char>,
    pub scheme: Seq<char>,
    pub host: Option<Seq<char>>,
}

impl View for UrlInfo {
    type V = UrlView;

    open spec fn view(&self) -> UrlView {
        UrlView {
            href: self.href@,
            scheme: self.scheme@,
            host: match self.host {
                Some(h) => Some(h@),
                None => None,
            },
        }
    }
}

pub open spec fn opt_url_view(u: Option<UrlInfo>) -> Option<UrlView> {
    match u {
        Some(x) => Some(x@),
        None => None,
    }
}

/// What `url::Url::parse` makes of a text (`None` when it fails).
pub uninterp spec fn parsed_url(input: Seq<char>) -> Option<UrlView>;

/// What `url::Url::join` makes of a reference resolved against a base URL
/// given by its serialization (`None` when it fails).
pub uninterp spec fn joined_url(base: Seq<char>, reference: Seq<char>) -> Option<UrlView>;

/// `url::Url::parse`, read back as serialization, scheme and host. Which
/// texts parse, and to what, is left to the name.
#[verifier::external_body]
pub(crate) fn parse_url(input: &str) -> (r: Option<UrlInfo>)
    ensures
        opt_url_view(r) == parsed_url(input@),
{
    match url::Url::parse(input) {
        Ok(u) => Some(UrlInfo {
            href: u.as_str().to_owned(),
            scheme: u.scheme().to_owned(),
            host: u.host_str().map(str::to_owned),
        }),
        Err(_) => None,
    }
}

/// `url::Url::join` of `reference` on the URL whose serialization is `base`,
/// read back as serialization, scheme and host. The result is left to the name.
#[verifier::external_body]
pub(crate) fn join_url(base: &str, reference: &str) -> (r: Option<UrlInfo>)
    ensures
        opt_url_view(r) == joined_url(base@, reference@),
{
    let joined = match url::Url::parse(base) {
        Ok(b) => b.join(reference),
        Err(e) => Err(e),
    };
    match joined {
        Ok(u) => Some(UrlInfo {
            href: u.as_str().to_owned(),
            scheme: u.scheme().to_owned(),
            host: u.host_str().map(str::to_owned),
        }),
        Err(_) => None,
    }
}

/// Whether two optional hosts are the same.
pub fn same_host(a: &Option<String>, b: &Option<String>) -> (r: bool)
    ensures
        r == (match a {
            Some(x) => Some(x@),
            None => None::<Seq<char>>,
        } == match b {
            Some(x) => Some(x@),
            None => None::<Seq<char>>,
        }),
{
    match (a, b) {
        (Some(x), Some(y)) => crate::text::str_eq(x.as_str(), y.as_str()),
        (None, None) => true,
        _ => false,
    }
}

} // verus!
