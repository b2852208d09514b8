use hayagriva::entry::Entry;
use hayagriva::kind::EntryType;
use hayagriva::library::Library;
use hayagriva::selector::ast::Expr;
use hayagriva::selector::grammar::{ErrorKind, SelectorError};
use hayagriva::selector::Selector;
use hayagriva::types::{Date, QualifiedUrl};

fn with_url(mut entry: Entry, url: &str) -> Entry {
    entry.set_url(QualifiedUrl { value: url.to_string(), visit_date: None });
    entry
}

fn with_parents(mut entry: Entry, parents: Vec<Entry>) -> Entry {
    entry.set_parents(parents);
    entry
}

fn plain(key: &str, kind: EntryType) -> Entry {
    Entry::new(key, kind)
}

fn child(key: &str, kind: EntryType, parent: EntryType) -> Entry {
    with_parents(plain(key, kind), vec![plain(key, parent)])
}

fn fixture() -> Library {
    let mut library = Library::new();
    let entries = vec![
        child("zygos", EntryType::Article, EntryType::Proceedings),
        with_url(
            child("omarova-libra", EntryType::Article, EntryType::Periodical),
            "https://example.org/libra",
        ),
        child("kinetics", EntryType::Article, EntryType::Periodical),
        child("house", EntryType::Article, EntryType::Newspaper),
        child("swedish", EntryType::Article, EntryType::Periodical),
        child("harry", EntryType::Chapter, EntryType::Book),
        child("gedanken", EntryType::InAnthology, EntryType::Anthology),
        with_url(plain("science-e-issue", EntryType::Periodical), "https://example.org/issue"),
        with_url(plain("oiseau", EntryType::Video), "https://example.org/oiseau"),
        with_url(plain("georgia", EntryType::Book), "https://example.org/georgia"),
        with_url(
            child("really-habitable", EntryType::Article, EntryType::Repository),
            "https://example.org/habitable",
        ),
        with_url(plain("electronic-music", EntryType::Reference), "https://example.org/music"),
        with_url(plain("mattermost", EntryType::WebItem), "https://example.org/mattermost"),
        with_url(plain("worth", EntryType::Blog), "https://example.org/worth"),
        with_url(plain("wrong", EntryType::Post), "https://example.org/wrong"),
        with_url(plain("un-hdr", EntryType::Report), "https://example.org/hdr"),
        with_url(
            child("audio-descriptions", EntryType::Article, EntryType::Blog),
            "https://example.org/audio",
        ),
        with_url(plain("camb", EntryType::Thesis), "https://example.org/camb"),
        with_url(plain("logician", EntryType::Entry), "https://example.org/logician"),
        with_url(plain("dns-encryption", EntryType::Thread), "https://example.org/dns"),
        with_url(plain("overleaf", EntryType::Misc), "https://example.org/overleaf"),
        with_url(plain("editors", EntryType::Anthology), "https://example.org/editors"),
        plain("terminator-2", EntryType::Video),
        plain("interior", EntryType::Artwork),
        child("wire", EntryType::Video, EntryType::Video),
        plain("plaque", EntryType::Misc),
        plain("renaissance", EntryType::Book),
        plain("donne", EntryType::Book),
        plain("roe-wade", EntryType::Case),
        plain("foia", EntryType::Legislation),
        plain("drill", EntryType::Patent),
        plain("latex-users", EntryType::Manuscript),
        plain("barb", EntryType::Exhibition),
        with_parents(
            plain("wwdc-network", EntryType::Article),
            vec![
                plain("wwdc-network", EntryType::Conference),
                with_url(plain("wwdc-network", EntryType::Video), "https://example.org/wwdc"),
            ],
        ),
        with_parents(
            plain("rhino", EntryType::Scene),
            vec![with_url(plain("rhino", EntryType::Video), "https://example.org/rhino")],
        ),
    ];
    for entry in entries.iter() {
        library.push(entry);
    }
    library
}

fn select_all(text: &str, library: &Library, expected: &[&str]) {
    let selector = Selector::parse(text).unwrap();
    for entry in library.iter() {
        let found = selector.apply(entry);
        assert_eq!(found.is_some(), selector.matches(entry));
        if expected.contains(&entry.key()) {
            if found.is_none() {
                panic!("Key {} not found in results", entry.key());
            }
        } else if found.is_some() {
            panic!("Key {} found in results", entry.key());
        }
    }
}

fn select(text: &str, library: &Library, key: &str, names: &[&str]) {
    let entry = library.get(key).unwrap();
    let selector = Selector::parse(text).unwrap();
    let found = selector.apply(entry).unwrap();
    if !names.iter().all(|name| found.get(name).is_some()) {
        panic!("Results do not contain binding");
    }
}

#[test]
fn selectors() {
    let entries = fixture();

    select_all("article > proceedings", &entries, &["zygos"]);
    select_all(
        "article > (periodical | newspaper)",
        &entries,
        &["omarova-libra", "kinetics", "house", "swedish"],
    );
    select_all("(chapter | anthos) > (anthology | book)", &entries, &["harry", "gedanken"]);
    select_all(
        "*[url]",
        &entries,
        &[
            "omarova-libra",
            "science-e-issue",
            "oiseau",
            "georgia",
            "really-habitable",
            "electronic-music",
            "mattermost",
            "worth",
            "wrong",
            "un-hdr",
            "audio-descriptions",
            "camb",
            "logician",
            "dns-encryption",
            "overleaf",
            "editors",
        ],
    );
    select_all(
        "!(*[url] | (* > *[url]))",
        &entries,
        &[
            "zygos",
            "harry",
            "terminator-2",
            "interior",
            "wire",
            "kinetics",
            "house",
            "plaque",
            "renaissance",
            "gedanken",
            "donne",
            "roe-wade",
            "foia",
            "drill",
            "swedish",
            "latex-users",
            "barb",
        ],
    );
}

#[test]
fn selector_bindings() {
    let entries = fixture();

    select(
        "a:article > (b:conference & c:(video|blog|web))",
        &entries,
        "wwdc-network",
        &["a", "b", "c"],
    );
}

#[test]
fn bindings_resolve_to_the_matched_entries() {
    let entries = fixture();
    let entry = entries.get("wwdc-network").unwrap();
    let selector = Selector::parse("a:article > (b:conference & c:(video|blog|web))").unwrap();
    let found = selector.apply(entry).unwrap();
    assert_eq!(found.get("a").unwrap(), entry);
    assert_eq!(found.get("b").unwrap(), &entry.parents()[0]);
    assert_eq!(found.get("c").unwrap(), &entry.parents()[1]);
    assert!(found.get("d").is_none());
    assert!(!found.is_empty());
}

#[test]
fn wildcard_matches_any_entry() {
    let selector = Selector::parse("*").unwrap();
    assert_eq!(selector.expr(), &Expr::Wildcard);
    for entry in fixture().iter() {
        assert!(selector.matches(entry));
        assert!(selector.apply(entry).unwrap().is_empty());
    }
}

#[test]
fn apply_agrees_with_matches() {
    let entries = fixture();
    for text in [
        "article",
        "!article",
        "* > *",
        "article > a:(video & *[url])",
        "(article | video)[url]",
        "x:* > (y:* > z:*)",
        "!(* > *)",
    ] {
        let selector = Selector::parse(text).unwrap();
        for entry in entries.iter() {
            assert_eq!(selector.apply(entry).is_some(), selector.matches(entry));
        }
    }
}

#[test]
fn double_negation_agrees_with_the_selector() {
    let entries = fixture();
    for text in ["article", "*[url]", "article > periodical", "video | book"] {
        let plain = Selector::parse(text).unwrap();
        let twice = Selector::parse(&format!("!(!({}))", text)).unwrap();
        for entry in entries.iter() {
            assert_eq!(plain.matches(entry), twice.matches(entry));
        }
    }
}

#[test]
fn alternation_is_commutative_and_associative() {
    let entries = fixture();
    let ab = Selector::parse("article | *[url]").unwrap();
    let ba = Selector::parse("*[url] | article").unwrap();
    let left = Selector::parse("(article | video) | (* > book)").unwrap();
    let right = Selector::parse("article | (video | (* > book))").unwrap();
    for entry in entries.iter() {
        assert_eq!(ab.matches(entry), ba.matches(entry));
        assert_eq!(left.matches(entry), right.matches(entry));
    }
}

#[test]
fn journal_of_an_article_is_bound() {
    let mut article = Entry::new("quantized-vortex", EntryType::Article);
    article.set_date(Date { year: 1961, month: Some(4), day: None });
    article.set_parents(vec![Entry::new("quantized-vortex", EntryType::Periodical)]);
    let selector = Selector::parse("(Article[\"date\"]) > (\"journal\":Periodical)").unwrap();
    assert!(selector.matches(&article));
    let found = selector.apply(&article).unwrap();
    assert_eq!(found.get("journal").unwrap(), &article.parents()[0]);

    let undated = child("undated", EntryType::Article, EntryType::Periodical);
    assert!(!selector.matches(&undated));
    assert!(selector.apply(&undated).is_none());
}

#[test]
fn conjunction_may_use_different_parents() {
    let entry = with_parents(
        plain("e", EntryType::Article),
        vec![plain("e", EntryType::Conference), plain("e", EntryType::Video)],
    );
    assert!(Selector::parse("article > (conference & video)").unwrap().matches(&entry));
    assert!(!Selector::parse("article > (conference & blog)").unwrap().matches(&entry));
    assert!(!Selector::parse("article & conference").unwrap().matches(&entry));
    // A capture holds a single entry, so what it wraps must hold of that entry.
    assert!(!Selector::parse("article > x:(conference & video)").unwrap().matches(&entry));
}

#[test]
fn captures_take_the_first_matching_parent() {
    let entry = with_parents(
        plain("e", EntryType::Article),
        vec![
            plain("first", EntryType::Blog),
            with_url(plain("second", EntryType::Video), "https://example.org/2"),
            with_url(plain("third", EntryType::Video), "https://example.org/3"),
        ],
    );
    let selector = Selector::parse("* > p:video[url]").unwrap();
    let found = selector.apply(&entry).unwrap();
    assert_eq!(found.get("p").unwrap().key(), "second");
}

#[test]
fn failed_branches_leave_no_bindings() {
    let inner = with_parents(plain("inner", EntryType::Book), vec![]);
    let good = with_parents(plain("good", EntryType::Book), vec![plain("top", EntryType::Anthology)]);
    let entry = with_parents(plain("e", EntryType::Chapter), vec![inner, good]);
    // The first book has no anthology above it: the match goes through the second.
    let selector = Selector::parse("chapter > (b:book > a:anthology)").unwrap();
    let found = selector.apply(&entry).unwrap();
    assert_eq!(found.get("b").unwrap().key(), "good");
    assert_eq!(found.get("a").unwrap().key(), "top");

    let either = Selector::parse("(x:video | y:chapter) > *").unwrap();
    let found = either.apply(&entry).unwrap();
    assert!(found.get("x").is_none());
    assert_eq!(found.get("y").unwrap().key(), "e");
}

#[test]
fn chained_relations_follow_a_path_of_that_length() {
    let top = plain("top", EntryType::Anthology);
    let middle = with_parents(plain("middle", EntryType::Book), vec![top]);
    let entry = with_parents(plain("e", EntryType::Chapter), vec![middle]);
    assert!(Selector::parse("chapter > book > anthology").unwrap().matches(&entry));
    assert!(!Selector::parse("chapter > anthology").unwrap().matches(&entry));
    assert!(!Selector::parse("chapter > book > anthology > *").unwrap().matches(&entry));
    assert_eq!(
        Selector::parse("chapter > book > anthology").unwrap().expr(),
        &Expr::Parent(
            Box::new(Expr::Type(EntryType::Chapter)),
            Box::new(Expr::Parent(
                Box::new(Expr::Type(EntryType::Book)),
                Box::new(Expr::Type(EntryType::Anthology)),
            )),
        ),
    );
}

#[test]
fn operators_bind_as_the_grammar_says() {
    assert_eq!(
        Selector::parse("a:article[url] & !book | * > video").unwrap().expr(),
        &Expr::Parent(
            Box::new(Expr::Or(
                Box::new(Expr::And(
                    Box::new(Expr::AttrFilter(
                        Box::new(Expr::Capture(
                            "a".to_string(),
                            Box::new(Expr::Type(EntryType::Article)),
                        )),
                        "url".to_string(),
                    )),
                    Box::new(Expr::Not(Box::new(Expr::Type(EntryType::Book)))),
                )),
                Box::new(Expr::Wildcard),
            )),
            Box::new(Expr::Type(EntryType::Video)),
        ),
    );
    assert_eq!(
        Selector::parse("book & video & audio").unwrap().expr(),
        &Expr::And(
            Box::new(Expr::And(
                Box::new(Expr::Type(EntryType::Book)),
                Box::new(Expr::Type(EntryType::Video)),
            )),
            Box::new(Expr::Type(EntryType::Audio)),
        ),
    );
    assert_eq!(
        Selector::parse(" *[ title ][\"serial-number\"] ").unwrap().expr(),
        &Expr::AttrFilter(
            Box::new(Expr::AttrFilter(Box::new(Expr::Wildcard), "title".to_string())),
            "serial-number".to_string(),
        ),
    );
}

#[test]
fn type_names_ignore_letter_case() {
    for text in ["article", "Article", "ARTICLE", "aRtIcLe"] {
        assert_eq!(Selector::parse(text).unwrap().expr(), &Expr::Type(EntryType::Article));
    }
    assert_eq!(Selector::parse("Web").unwrap().expr(), &Expr::Type(EntryType::WebItem));
    assert_eq!(Selector::parse("anthos").unwrap().expr(), &Expr::Type(EntryType::InAnthology));
}

fn refusal(text: &str) -> SelectorError {
    match Selector::parse(text) {
        Ok(_) => panic!("{} was accepted", text),
        Err(e) => e,
    }
}

#[test]
fn faulty_texts_are_refused_with_kind_and_offset() {
    assert_eq!(refusal(""), SelectorError { kind: ErrorKind::UnexpectedEnd, offset: 0 });
    assert_eq!(refusal("   "), SelectorError { kind: ErrorKind::UnexpectedEnd, offset: 3 });
    assert_eq!(
        refusal("article > "),
        SelectorError { kind: ErrorKind::UnexpectedEnd, offset: 10 }
    );
    assert_eq!(
        refusal("artikel"),
        SelectorError { kind: ErrorKind::UnknownEntryType, offset: 0 }
    );
    assert_eq!(
        refusal("book | tome"),
        SelectorError { kind: ErrorKind::UnknownEntryType, offset: 7 }
    );
    assert_eq!(
        refusal("(article"),
        SelectorError { kind: ErrorKind::UnbalancedParens, offset: 0 }
    );
    assert_eq!(
        refusal("book > (video | (audio)"),
        SelectorError { kind: ErrorKind::UnbalancedParens, offset: 7 }
    );
    assert_eq!(
        refusal("article)"),
        SelectorError { kind: ErrorKind::UnbalancedParens, offset: 7 }
    );
    assert_eq!(
        refusal("article book"),
        SelectorError { kind: ErrorKind::UnexpectedToken, offset: 8 }
    );
    assert_eq!(refusal("& book"), SelectorError { kind: ErrorKind::UnexpectedToken, offset: 0 });
    assert_eq!(refusal("!!book"), SelectorError { kind: ErrorKind::UnexpectedToken, offset: 1 });
    assert_eq!(refusal("()"), SelectorError { kind: ErrorKind::UnexpectedToken, offset: 1 });
    assert_eq!(
        refusal("(book video)"),
        SelectorError { kind: ErrorKind::UnexpectedToken, offset: 6 }
    );
    assert_eq!(refusal("*[]"), SelectorError { kind: ErrorKind::UnexpectedToken, offset: 2 });
    assert_eq!(refusal("*[url"), SelectorError { kind: ErrorKind::UnexpectedEnd, offset: 5 });
    assert_eq!(refusal("*[\"url"), SelectorError { kind: ErrorKind::UnexpectedEnd, offset: 6 });
    assert_eq!(
        refusal("*[url, doi]"),
        SelectorError { kind: ErrorKind::UnexpectedToken, offset: 5 }
    );
    assert_eq!(
        refusal("a:book > a:video"),
        SelectorError { kind: ErrorKind::DuplicateCapture, offset: 9 }
    );
    assert_eq!(
        refusal("(x:book | x:video)"),
        SelectorError { kind: ErrorKind::DuplicateCapture, offset: 10 }
    );
    assert_eq!(
        refusal("bücher"),
        SelectorError { kind: ErrorKind::UnknownEntryType, offset: 0 }
    );
    assert_eq!(
        refusal("* > ü"),
        SelectorError { kind: ErrorKind::UnexpectedToken, offset: 4 }
    );
}

#[test]
fn selectors_from_expressions_need_distinct_names() {
    let twice = Expr::And(
        Box::new(Expr::Capture("a".to_string(), Box::new(Expr::Wildcard))),
        Box::new(Expr::Capture("a".to_string(), Box::new(Expr::Wildcard))),
    );
    assert!(Selector::new(twice).is_none());
    let once = Expr::And(
        Box::new(Expr::Capture("a".to_string(), Box::new(Expr::Wildcard))),
        Box::new(Expr::Capture("b".to_string(), Box::new(Expr::Wildcard))),
    );
    let selector = Selector::new(once).unwrap();
    let entry = plain("e", EntryType::Misc);
    let found = selector.apply(&entry).unwrap();
    assert_eq!(found.get("a").unwrap(), &entry);
    assert_eq!(found.get("b").unwrap(), &entry);
}

#[test]
fn unknown_fields_match_nothing() {
    let entry = with_url(plain("e", EntryType::Misc), "https://example.org");
    assert!(Selector::parse("*[url]").unwrap().matches(&entry));
    assert!(!Selector::parse("*[URL]").unwrap().matches(&entry));
    assert!(!Selector::parse("*[colour]").unwrap().matches(&entry));
    assert!(!Selector::parse("*[title]").unwrap().matches(&entry));
}

#[test]
fn texts_with_too_many_operators_are_refused() {
    let operands = vec!["article"; 129];
    let within = operands.join("|");
    let selector = Selector::parse(&within).unwrap();
    assert!(selector.matches(&plain("e", EntryType::Article)));
    assert!(!selector.matches(&plain("e", EntryType::Book)));

    let beyond = format!("{}|article", within);
    // The 129th bar stands after 129 operands and 128 bars.
    assert_eq!(
        refusal(&beyond),
        SelectorError { kind: ErrorKind::TooComplex, offset: 129 * 7 + 128 }
    );
    // The bound is checked before the grammar is.
    let faulty = format!("{}|))", within);
    assert_eq!(refusal(&faulty).kind, ErrorKind::TooComplex);
    let nested = format!("{}*{}", "(".repeat(129), ")".repeat(129));
    assert_eq!(refusal(&nested), SelectorError { kind: ErrorKind::TooComplex, offset: 128 });
    let nested = format!("{}*{}", "(".repeat(128), ")".repeat(128));
    assert_eq!(Selector::parse(&nested).unwrap().expr(), &Expr::Wildcard);
}

#[test]
fn selectors_from_expressions_are_bounded() {
    let mut expr = Expr::Wildcard;
    for _ in 0..256 {
        expr = Expr::Not(Box::new(expr));
    }
    assert!(Selector::new(expr.clone()).is_some());
    assert!(Selector::new(Expr::Not(Box::new(expr))).is_none());
}

#[test]
fn texts_denote_the_expressions_of_the_laws() {
    let url = || Expr::AttrFilter(Box::new(Expr::Wildcard), "url".to_string());
    assert_eq!(
        Selector::parse("article > proceedings").unwrap().expr(),
        &Expr::Parent(
            Box::new(Expr::Type(EntryType::Article)),
            Box::new(Expr::Type(EntryType::Proceedings)),
        ),
    );
    assert_eq!(Selector::parse("*[url]").unwrap().expr(), &url());
    assert_eq!(
        Selector::parse("!(*[url] | (* > *[url]))").unwrap().expr(),
        &Expr::Not(Box::new(Expr::Or(
            Box::new(url()),
            Box::new(Expr::Parent(Box::new(Expr::Wildcard), Box::new(url()))),
        ))),
    );
    assert_eq!(
        Selector::parse("(Article[\"date\"]) > (\"journal\":Periodical)").unwrap().expr(),
        &Expr::Parent(
            Box::new(Expr::AttrFilter(
                Box::new(Expr::Type(EntryType::Article)),
                "date".to_string(),
            )),
            Box::new(Expr::Capture(
                "journal".to_string(),
                Box::new(Expr::Type(EntryType::Periodical)),
            )),
        ),
    );
    assert_eq!(
        Selector::parse("!(!article)").unwrap().expr(),
        &Expr::Not(Box::new(Expr::Not(Box::new(Expr::Type(EntryType::Article))))),
    );
}
