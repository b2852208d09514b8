use hayagriva::entry::Entry;
use hayagriva::kind::EntryType;
use hayagriva::selector::cache::SelectorCache;
use hayagriva::selector::grammar::ErrorKind;
use hayagriva::social::handle_from_url;
use hayagriva::types::{Person, QualifiedUrl};

fn author(alias: Option<&str>) -> Person {
    Person {
        name: "Doe".to_string(),
        given_name: None,
        prefix: None,
        suffix: None,
        alias: alias.map(|a| a.to_string()),
    }
}

fn post(authors: Vec<Person>, url: Option<&str>) -> Entry {
    let mut entry = Entry::new("post", EntryType::Post);
    entry.set_authors(authors);
    if let Some(url) = url {
        entry.set_url(QualifiedUrl { value: url.to_string(), visit_date: None });
    }
    entry
}

#[test]
fn aliases_become_handles() {
    let entry = post(vec![author(Some("@jane")), author(Some("john")), author(None)], None);
    assert_eq!(entry.social_handle(0).unwrap(), "@jane");
    assert_eq!(entry.social_handle(1).unwrap(), "@john");
    assert!(entry.social_handle(2).is_none());
    assert!(entry.social_handle(3).is_none());
    assert_eq!(post(vec![author(Some(""))], None).social_handle(0).unwrap(), "@");
}

#[test]
fn the_first_author_takes_the_handle_of_the_url() {
    let url = "https://twitter.com/typstapp/status/1";
    assert_eq!(post(vec![author(None)], Some(url)).social_handle(0).unwrap(), "@typstapp");
    assert_eq!(
        post(vec![author(None)], Some("https://x.com/typstapp")).social_handle(0).unwrap(),
        "@typstapp"
    );
    assert_eq!(
        post(vec![author(None)], Some("https://X.COM/Typst")).social_handle(0).unwrap(),
        "@Typst"
    );
    assert_eq!(post(vec![author(None)], Some("https://x.com")).social_handle(0).unwrap(), "@");
    // The alias comes first, and only the first author is looked up by URL.
    assert_eq!(post(vec![author(Some("a"))], Some(url)).social_handle(0).unwrap(), "@a");
    assert!(post(vec![author(None), author(None)], Some(url)).social_handle(1).is_none());
}

#[test]
fn posts_without_authors_take_the_handle_of_the_url() {
    let url = "https://twitter.com/handle/status/1";
    assert_eq!(post(Vec::new(), Some(url)).social_handle(0).unwrap(), "@handle");
    let mut bare = Entry::new("post", EntryType::Post);
    bare.set_url(QualifiedUrl { value: url.to_string(), visit_date: None });
    assert_eq!(bare.social_handle(0).unwrap(), "@handle");
    assert!(bare.social_handle(1).is_none());
    assert!(post(Vec::new(), Some("https://example.org/handle")).social_handle(0).is_none());
    assert!(post(Vec::new(), None).social_handle(0).is_none());
    assert!(Entry::new("post", EntryType::Post).social_handle(0).is_none());
}

#[test]
fn other_urls_give_no_handle() {
    let with = |url| post(vec![author(None)], Some(url)).social_handle(0);
    assert!(with("https://example.org/typstapp").is_none());
    assert!(with("https://mobile.twitter.com/typstapp").is_none());
    assert!(with("https://127.0.0.1/typstapp").is_none());
    assert!(with("twitter.com/typstapp").is_none());
    assert!(with("mailto:typst@x.com").is_none());
    assert!(with("").is_none());
    assert!(post(vec![author(None)], None).social_handle(0).is_none());
}

#[test]
fn only_posts_have_handles() {
    let mut entry = post(vec![author(Some("jane"))], Some("https://x.com/jane"));
    entry.entry_type = EntryType::Blog;
    assert!(entry.social_handle(0).is_none());
    assert!(Entry::new("b", EntryType::Book).social_handle(0).is_none());
    assert!(Entry::new("p", EntryType::Post).social_handle(1).is_none());
}

#[test]
fn handles_come_from_the_platform_domains() {
    assert_eq!(handle_from_url(Some("twitter.com"), Some("a")).unwrap(), "@a");
    assert_eq!(handle_from_url(Some("x.com"), Some("")).unwrap(), "@");
    assert!(handle_from_url(Some("x.org"), Some("a")).is_none());
    assert!(handle_from_url(Some("x.com"), None).is_none());
    assert!(handle_from_url(None, Some("a")).is_none());
}

#[test]
fn the_cache_parses_a_text_once() {
    let mut cache = SelectorCache::new();
    assert_eq!(cache.len(), 0);
    let first = cache.select("article > periodical").unwrap();
    assert_eq!(cache.len(), 1);
    let again = cache.select("article > periodical").unwrap();
    assert_eq!(cache.len(), 1);
    assert_eq!(first.expr(), again.expr());
    assert_eq!(cache.select("article >").unwrap_err().kind, ErrorKind::UnexpectedEnd);
    assert_eq!(cache.len(), 2);
    assert_eq!(cache.select("article >").unwrap_err().offset, 9);
    assert_eq!(cache.len(), 2);
    assert_eq!(cache.find_or_parse("article > periodical"), 0);
    assert_eq!(cache.find_or_parse("*"), 2);
    assert!(cache.at(2).unwrap().is_ok());
    assert!(cache.at(1).unwrap().is_err());
    assert!(cache.at(3).is_none());
}
