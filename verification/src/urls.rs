//! What is read from the text of a URL.

use crate::types::opt_text;
use vstd::prelude::*;

verus! {

/// The domain name that a URL gives as its host: nothing where the text is
/// no absolute URL, or where it has no host or an address as its host.
pub uninterp spec fn url_host_domain(url: Seq<char>) -> Option<Seq<char>>;

/// The host of a URL as text, be it a domain name or an address: nothing
/// where the text is no absolute URL or where it has no host.
pub uninterp spec fn url_host_text(url: Seq<char>) -> Option<Seq<char>>;

/// The first segment of the path of a URL: nothing where the text is no
/// absolute URL or where the URL cannot be a base.
pub uninterp spec fn url_first_segment(url: Seq<char>) -> Option<Seq<char>>;

/// `Url::host` of the URL that `Url::parse` makes of the text: the domain
/// where the host is a domain name.
#[verifier::external_body]
pub(crate) fn host_domain(url: &str) -> (r: Option<String>)
    ensures
        opt_text(r) == url_host_domain(url@),
{
    match url::Url::parse(url) {
        Ok(parsed) => match parsed.host() {
            Some(url::Host::Domain(domain)) => Some(domain.to_owned()),
            _ => None,
        },
        Err(_) => None,
    }
}

/// `Url::host_str` of the URL that `Url::parse` makes of the text.
#[verifier::external_body]
pub(crate) fn host_text(url: &str) -> (r: Option<String>)
    ensures
        opt_text(r) == url_host_text(url@),
{
    match url::Url::parse(url) {
        Ok(parsed) => match parsed.host_str() {
            Some(host) => Some(host.to_owned()),
            None => None,
        },
        Err(_) => None,
    }
}

/// `Url::path_segments` of the URL that `Url::parse` makes of the text: the
/// first of the segments.
#[verifier::external_body]
pub(crate) fn first_segment(url: &str) -> (r: Option<String>)
    ensures
        opt_text(r) == url_first_segment(url@),
{
    match url::Url::parse(url) {
        Ok(parsed) => match parsed.path_segments() {
            Some(mut segments) => match segments.next() {
                Some(segment) => Some(segment.to_owned()),
                None => None,
            },
            None => None,
        },
        Err(_) => None,
    }
}

} // verus!
