//! Handles of the authors of posts on micro-blogging platforms.

use crate::entry::Entry;
use crate::kind::EntryType;
use crate::text::same_text;
use crate::types::opt_text;
use crate::urls::{first_segment, host_domain, url_first_segment, url_host_domain};
use vstd::prelude::*;
use vstd::string::StringExecFns;

verus! {

/// A handle with `@` in front, unless it has one already.
pub open spec fn at_handle(alias: Seq<char>) -> Seq<char> {
    if alias.len() > 0 && alias[0] == '@' {
        alias
    } else {
        seq!['@'] + alias
    }
}

/// The handle that the URL of a post gives: the first segment of its path
/// after `@`, where the host is one of the platform's domains.
pub open spec fn handle_of_url(host: Option<Seq<char>>, segment: Option<Seq<char>>) -> Option<
    Seq<char>,
> {
    match (host, segment) {
        (Some(h), Some(s)) => if h == "twitter.com"@ || h == "x.com"@ {
            Some(seq!['@'] + s)
        } else {
            None
        },
        _ => None,
    }
}

/// The handle that the URL of a post gives, from the domain of its host and
/// the first segment of its path.
pub fn handle_from_url(host: Option<&str>, segment: Option<&str>) -> (r: Option<String>)
    ensures
        opt_text(r) == handle_of_url(
            match host {
                Some(h) => Some(h@),
                None => None,
            },
            match segment {
                Some(s) => Some(s@),
                None => None,
            },
        ),
{
    match host {
        Some(h) => {
            if same_text(h, "twitter.com") || same_text(h, "x.com") {
                match segment {
                    Some(s) => Some(with_at(s)),
                    None => None,
                }
            } else {
                None
            }
        },
        None => None,
    }
}

/// The text with `@` in front.
fn with_at(s: &str) -> (r: String)
    ensures
        r@ == seq!['@'] + s@,
{
    proof {
        reveal_strlit("@");
    }
    let mut r = String::from_str("@");
    r.append(s);
    assert(r@ =~= seq!['@'] + s@);
    r
}

/// The alias of the author at `index`; nothing where the entry has no such
/// author or the author has no alias.
pub open spec fn alias_at(e: Entry, index: int) -> Option<Seq<char>> {
    match e.fields.authors {
        Some(authors) => if 0 <= index < authors@.len() {
            opt_text(authors@[index].alias)
        } else {
            None
        },
        None => None,
    }
}

/// The number of authors of an entry.
pub open spec fn author_count(e: Entry) -> nat {
    match e.fields.authors {
        Some(authors) => authors@.len(),
        None => 0,
    }
}

/// The social media handle of the author at `user_index` of a post: the
/// alias of the author with `@` in front or, at index zero and without an
/// alias, be it that the first author has none or that the post names no
/// author, the handle that the URL of the post gives.
pub open spec fn social_handle_of(e: Entry, user_index: int) -> Option<Seq<char>> {
    if e.entry_type != EntryType::Post {
        None
    } else if user_index > 0 && user_index >= author_count(e) {
        None
    } else if alias_at(e, user_index) is Some {
        Some(at_handle(alias_at(e, user_index)->0))
    } else if user_index == 0 && e.fields.url is Some {
        handle_of_url(
            url_host_domain(e.fields.url->0.value@),
            url_first_segment(e.fields.url->0.value@),
        )
    } else {
        None
    }
}

impl Entry {
    /// The social media handle of the author at `user_index`, with `@` in
    /// front. At index zero the handle is taken from the URL of the post
    /// where no alias is to be had.
    pub fn social_handle(&self, user_index: usize) -> (r: Option<String>)
        ensures
            opt_text(r) == social_handle_of(*self, user_index as int),
    {
        if self.entry_type != EntryType::Post {
            return None;
        }
        let count = match &self.fields.authors {
            Some(authors) => authors.len(),
            None => 0,
        };
        if user_index > 0 && user_index >= count {
            return None;
        }
        match &self.fields.authors {
            Some(authors) => {
                if user_index < authors.len() {
                    match &authors[user_index].alias {
                        Some(alias) => {
                            let text = alias.as_str();
                            if text.unicode_len() > 0 && text.get_char(0) == '@' {
                                return Some(alias.clone());
                            } else {
                                return Some(with_at(text));
                            }
                        },
                        None => {},
                    }
                }
            },
            None => {},
        }
        if user_index == 0 {
            match &self.fields.url {
                Some(url) => {
                    let host = host_domain(url.value.as_str());
                    let segment = first_segment(url.value.as_str());
                    return handle_from_url(
                        match &host {
                            Some(h) => Some(h.as_str()),
                            None => None,
                        },
                        match &segment {
                            Some(s) => Some(s.as_str()),
                            None => None,
                        },
                    );
                },
                None => {},
            }
        }
        None
    }
}

} // verus!
