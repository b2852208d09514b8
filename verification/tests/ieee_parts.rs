use hayagriva::display::{DisplayString, FormatVariantOptions, Formatting};
use hayagriva::entry::Entry;
use hayagriva::kind::EntryType;
use hayagriva::output::ieee::addons::{
    addon_sources, imprint_line, layout, marks_arxiv, Layout, Typeset,
};
use hayagriva::output::ieee::title::{add_language_note, title_sources, Titles};
use hayagriva::output::ieee::IeeeBibliographyGenerator;
use hayagriva::types::{Date, NumOrStr, NumRange, Person, QualifiedUrl};

fn titled(key: &str, kind: EntryType, title: &str) -> Entry {
    let mut entry = Entry::new(key, kind);
    entry.set_title(title.to_string());
    entry
}

fn under(mut entry: Entry, parents: Vec<Entry>) -> Entry {
    entry.set_parents(parents);
    entry
}

fn person(name: &str) -> Person {
    Person { name: name.to_string(), given_name: None, prefix: None, suffix: None, alias: None }
}

fn upper(title: Option<&str>) -> Option<String> {
    title.map(|t| t.to_uppercase())
}

fn lower(title: Option<&str>) -> Option<String> {
    title.map(|t| t.to_lowercase())
}

/// The titles of an entry: sentence case stands in lower case, title case in
/// upper case, and nothing is abbreviated.
fn titles(entry: &Entry) -> Titles {
    let sources = title_sources(entry);
    Titles {
        sentence: lower(sources.own),
        own: upper(sources.own),
        container: upper(sources.container),
        series: upper(sources.series),
        conference: upper(sources.conference),
    }
}

fn title_element(entry: &Entry) -> (String, Vec<Formatting>) {
    let element = IeeeBibliographyGenerator::new().get_title_element(entry, &titles(entry));
    assert!(element.pending.is_empty());
    (element.value, element.formatting)
}

fn italic(start: usize, end: usize) -> Vec<Formatting> {
    vec![Formatting { start, end, variant: FormatVariantOptions::Italic }]
}

#[test]
fn articles_stand_before_their_periodical() {
    let article = under(
        titled("a", EntryType::Article, "On Things"),
        vec![titled("a", EntryType::Periodical, "Annals")],
    );
    assert_eq!(title_element(&article), ("“on things,” ANNALS".to_string(), italic(17, 23)));
    let sources = title_sources(&article);
    assert_eq!(sources.own, Some("On Things"));
    assert_eq!(sources.container, Some("Annals"));
    assert_eq!(sources.series, None);
    assert_eq!(sources.conference, None);
}

#[test]
fn other_works_stand_in_their_container() {
    let chapter = under(
        titled("c", EntryType::Chapter, "Start"),
        vec![titled("c", EntryType::Book, "Whole")],
    );
    assert_eq!(title_element(&chapter), ("“start,” in WHOLE".to_string(), italic(16, 21)));
    let untitled = under(
        Entry::new("c", EntryType::Chapter),
        vec![titled("c", EntryType::Book, "Whole")],
    );
    assert_eq!(title_element(&untitled), ("in WHOLE".to_string(), italic(3, 8)));
    let nameless =
        under(titled("c", EntryType::Chapter, "Start"), vec![Entry::new("c", EntryType::Book)]);
    assert_eq!(title_element(&nameless), ("“start,”".to_string(), vec![]));
}

#[test]
fn talks_are_presented_at_their_conference() {
    let talk = under(
        titled("t", EntryType::Scene, "Talk"),
        vec![titled("t", EntryType::Conference, "Conf")],
    );
    assert_eq!(title_element(&talk), ("talk. Presented at CONF".to_string(), vec![]));
    let mut german = talk.clone();
    german.set_language("de".to_string());
    assert_eq!(title_element(&german).0, "talk. Presented at CONF");
    let untitled = under(
        Entry::new("t", EntryType::Scene),
        vec![titled("t", EntryType::Conference, "Conf")],
    );
    assert_eq!(title_element(&untitled).0, "Presented at CONF");
    let nameless =
        under(titled("t", EntryType::Scene, "Talk"), vec![Entry::new("t", EntryType::Conference)]);
    assert_eq!(title_element(&nameless).0, "talk.");

    let paper = under(
        titled("p", EntryType::Article, "Talk"),
        vec![titled("p", EntryType::Proceedings, "Proc")],
    );
    assert_eq!(title_element(&paper), ("“talk,” in PROC".to_string(), italic(15, 19)));
}

#[test]
fn the_language_of_a_work_is_noted() {
    let mut chapter = under(
        titled("c", EntryType::Chapter, "Anfang"),
        vec![titled("c", EntryType::Book, "Ganzes")],
    );
    chapter.set_language("de".to_string());
    assert_eq!(
        title_element(&chapter),
        ("“anfang,” (in German) in GANZES".to_string(), italic(29, 35))
    );
    let generator = IeeeBibliographyGenerator::new();
    assert!(generator.try_get_title_element(&chapter, &titles(&chapter)).is_some());

    // The language of the parent is noted where the work has none.
    let mut book = titled("c", EntryType::Book, "Tout");
    book.set_language("fr-CA".to_string());
    let chapter = under(titled("c", EntryType::Chapter, "Part"), vec![book]);
    assert_eq!(title_element(&chapter).0, "“part,” (in French) in TOUT");

    // A language without a name leaves the element undefined.
    let mut chapter = under(
        titled("c", EntryType::Chapter, "Start"),
        vec![titled("c", EntryType::Book, "Whole")],
    );
    chapter.set_language("yue".to_string());
    assert!(generator.try_get_title_element(&chapter, &titles(&chapter)).is_none());
    // Without the title of the parent no language is noted.
    let bare = Titles { container: None, ..titles(&chapter) };
    assert_eq!(generator.try_get_title_element(&chapter, &bare).unwrap().value, "“start,”");
}

#[test]
fn series_follow_the_container() {
    let mut series = titled("s", EntryType::Anthology, "Series");
    series.set_issue(NumOrStr::Number(3));
    let anthology = under(titled("s", EntryType::Anthology, "Collected"), vec![series]);
    let text = under(titled("s", EntryType::InAnthology, "Poem"), vec![anthology]);
    assert_eq!(
        title_element(&text),
        ("“poem,” in COLLECTED (SERIES, no. 3)".to_string(), italic(15, 24))
    );
    let sources = title_sources(&text);
    assert_eq!(sources.series, Some("Series"));

    let meetings = titled("p", EntryType::Proceedings, "Meetings");
    let proceedings = under(titled("p", EntryType::Proceedings, "Proc"), vec![meetings]);
    let paper = under(titled("p", EntryType::Article, "Talk"), vec![proceedings]);
    assert_eq!(title_element(&paper).0, "“talk,” in PROC in MEETINGS");
    assert_eq!(title_sources(&paper).conference, Some("Meetings"));
}

#[test]
fn works_that_stand_alone_are_quoted_or_in_italics() {
    assert_eq!(
        title_element(&titled("b", EntryType::Book, "Whole")),
        ("WHOLE".to_string(), italic(0, 5))
    );
    assert_eq!(
        title_element(&titled("a", EntryType::Article, "On Things")),
        ("“on things,”".to_string(), vec![])
    );
    assert_eq!(title_element(&Entry::new("a", EntryType::Article)), (String::new(), vec![]));
    assert_eq!(title_element(&Entry::new("b", EntryType::Book)), (String::new(), italic(0, 0)));
    let mut law = titled("l", EntryType::Legislation, "An Act");
    law.set_serial_number("H.R. 1".to_string());
    assert_eq!(title_element(&law), ("H.R. 1, AN ACT".to_string(), italic(0, 14)));
    let mut numbered = Entry::new("l", EntryType::Legislation);
    numbered.set_serial_number("H.R. 1".to_string());
    assert_eq!(title_element(&numbered), ("H.R. 1".to_string(), italic(0, 6)));
    let mut book = titled("b", EntryType::Book, "Whole");
    book.set_serial_number("7".to_string());
    assert_eq!(title_element(&book).0, "WHOLE");
}

fn addons(entry: &Entry, canonical: &Entry) -> Vec<String> {
    let generator = IeeeBibliographyGenerator::new();
    let sources = addon_sources(entry, canonical);
    let typeset = Typeset {
        editors: sources
            .editors
            .map(|editors| editors.iter().map(|p| p.name.clone()).collect())
            .unwrap_or_default(),
        organization: sources.organization.map(|o| format!("<{}>", o)),
    };
    generator.try_get_addons(entry, canonical, &typeset, Some(2), Some(5)).unwrap()
}

fn on(year: i32, month: Option<u8>, day: Option<u8>) -> Date {
    Date { year, month, day }
}

fn url(value: &str) -> QualifiedUrl {
    QualifiedUrl { value: value.to_string(), visit_date: None }
}

#[test]
fn papers_in_proceedings() {
    let mut proceedings = Entry::new("p", EntryType::Proceedings);
    proceedings.set_editors(vec![person("E"), person("F")]);
    proceedings.set_edition(NumOrStr::Number(2));
    proceedings.set_location("Paris".to_string());
    proceedings.set_volume(NumRange { start: 9, end: 9 });
    let mut paper = Entry::new("p", EntryType::Article);
    paper.set_volume(NumRange { start: 1, end: 3 });
    paper.set_date(on(2020, Some(4), Some(0)));
    paper.set_page_range(NumRange { start: 10, end: 20 });
    paper.set_doi("10.1/x".to_string());
    paper.set_serial_number("7".to_string());
    assert_eq!(layout(&paper, &proceedings), Layout::Meeting);
    assert_eq!(
        addons(&paper, &proceedings),
        ["E, and F, Eds.", "vols. 1–3", "2nd ed.", "Paris", "May 1", "2020", "pp. 10–20", "doi: 10.1/x"]
    );
    let mut conference = Entry::new("c", EntryType::Conference);
    conference.set_editors(vec![person("E")]);
    conference.set_location("Rome".to_string());
    assert_eq!(addons(&paper, &conference), ["Rome", "May 1", "2020", "Paper 7"]);
    proceedings.set_editors(vec![person("E")]);
    proceedings.set_edition(NumOrStr::Number(1));
    paper.set_date(on(2020, None, Some(3)));
    assert_eq!(
        addons(&paper, &proceedings),
        ["E, Ed.", "vols. 1–3", "Paris", "2020", "pp. 10–20", "doi: 10.1/x"]
    );
}

#[test]
fn entries_of_reference_works() {
    let mut reference = Entry::new("r", EntryType::Reference);
    reference.set_edition(NumOrStr::Str("rev.".to_string()));
    reference.set_publisher("Press".to_string());
    reference.set_organization("Academy".to_string());
    reference.set_location("Oslo".to_string());
    let mut entry = Entry::new("r", EntryType::Entry);
    entry.set_date(on(1999, Some(11), Some(24)));
    entry.set_page_range(NumRange { start: 4, end: 4 });
    assert_eq!(
        addons(&entry, &reference),
        ["rev.", "Academy", "Oslo", "Dec. 25, 1999", "p. 4"]
    );
    entry.set_url(url("https://example.org"));
    assert_eq!(addons(&entry, &reference), ["rev.", "(Dec. 25, 1999)"]);
    entry.set_date(on(1999, Some(11), None));
    assert_eq!(addons(&entry, &reference), ["rev.", "(Dec. 1999)"]);
    entry.set_date(on(1999, None, None));
    assert_eq!(addons(&entry, &reference), ["rev.", "(1999)"]);
}

#[test]
fn works_in_repositories_and_videos() {
    let mut repository = Entry::new("r", EntryType::Repository);
    repository.set_date(on(2021, None, None));
    repository.set_organization("Group".to_string());
    repository.set_location("Web".to_string());
    let mut work = Entry::new("r", EntryType::Misc);
    work.set_date(on(2019, None, None));
    work.set_language("es".to_string());
    assert_eq!(addons(&work, &repository), ["(2021)", "Web: Group (in Spanish)"]);
    repository.set_serial_number("1.2".to_string());
    repository.set_publisher("Forge".to_string());
    assert_eq!(addons(&work, &repository), ["(version 1.2)", "Web: Forge (in Spanish)"]);

    let video = Entry::new("v", EntryType::Video);
    assert_eq!(addons(&work, &video), ["(2019)"]);
    assert!(addons(&Entry::new("s", EntryType::Scene), &video).is_empty());
}

#[test]
fn patents() {
    let mut patent = Entry::new("p", EntryType::Patent);
    patent.set_location("U.S.".to_string());
    patent.set_serial_number("123".to_string());
    patent.set_date(on(2001, Some(0), Some(30)));
    assert_eq!(addons(&patent, &patent), ["U.S. Patent 123", "Jan. 31", "2001"]);
    patent.set_url(url("https://example.org"));
    assert_eq!(addons(&patent, &patent), ["(2001, Jan. 31). U.S. Patent 123"]);
    let bare = Entry::new("p", EntryType::Patent);
    assert_eq!(addons(&bare, &bare), ["Patent"]);
}

#[test]
fn articles_in_periodicals() {
    let mut periodical = Entry::new("j", EntryType::Periodical);
    periodical.set_volume(NumRange { start: 20, end: 20 });
    periodical.set_issue(NumOrStr::Number(3));
    let mut article = Entry::new("j", EntryType::Article);
    article.set_date(on(1961, Some(4), None));
    article.set_serial_number("e12".to_string());
    article.set_doi("10.1007/BF02731494".to_string());
    assert_eq!(
        addons(&article, &periodical),
        ["vol. 20", "no. 3", "May", "1961", "Art. no. e12", "doi: 10.1007/BF02731494"]
    );
    article.set_page_range(NumRange { start: 454, end: 477 });
    assert_eq!(
        addons(&article, &periodical),
        ["vol. 20", "no. 3", "pp. 454–477", "May", "1961", "doi: 10.1007/BF02731494"]
    );
}

#[test]
fn reports_and_theses() {
    let mut report = Entry::new("r", EntryType::Report);
    report.set_publisher("Office".to_string());
    report.set_location("Bonn".to_string());
    report.set_serial_number("R-1".to_string());
    report.set_volume(NumRange { start: 2, end: 2 });
    report.set_issue(NumOrStr::Str("B".to_string()));
    report.set_date(on(2010, Some(5), Some(9)));
    assert_eq!(
        addons(&report, &report),
        ["Office", "Bonn", "Rep. R-1", "June 10, 2010", "vol. 2", "no. B"]
    );
    report.set_url(url("https://example.org"));
    assert_eq!(
        addons(&report, &report),
        ["Office", "Bonn", "Rep. R-1", "vol. 2", "no. B", "June 10, 2010"]
    );

    let mut thesis = Entry::new("t", EntryType::Thesis);
    thesis.set_organization("University".to_string());
    thesis.set_location("Graz".to_string());
    thesis.set_serial_number("42".to_string());
    thesis.set_date(on(2015, Some(1), None));
    assert_eq!(addons(&thesis, &thesis), ["Thesis", "<University>", "Graz", "42", "2015"]);
    assert_eq!(addon_sources(&thesis, &thesis).organization, Some("University"));
    let mut placed = Entry::new("t", EntryType::Thesis);
    placed.set_location("Graz".to_string());
    assert_eq!(addons(&placed, &placed), ["Thesis"]);
}

#[test]
fn laws_and_manuscripts() {
    let law = Entry::new("l", EntryType::Legislation);
    assert!(addons(&law, &law).is_empty());
    let manuscript = Entry::new("m", EntryType::Manuscript);
    assert_eq!(addons(&manuscript, &manuscript), ["unpublished"]);
}

#[test]
fn preprints() {
    let mut repository = titled("p", EntryType::Repository, "arXiv");
    repository.set_archive("cs.LG".to_string());
    let mut preprint = Entry::new("p", EntryType::Article);
    preprint.set_serial_number("2001.00001".to_string());
    preprint.set_date(on(2020, Some(0), None));
    let preprint = under(preprint, vec![repository.clone()]);
    assert_eq!(layout(&preprint, &preprint), Layout::Preprint(0));
    // Without a URL the number is not marked.
    assert_eq!(addons(&preprint, &preprint), ["2001.00001 [cs.LG]", "Jan.", "2020"]);

    let mut shown = preprint.clone();
    shown.set_url(url("https://example.org/abs/2001.00001"));
    assert_eq!(addons(&shown, &shown), ["arXiv: 2001.00001 [cs.LG]", "Jan.", "2020"]);
    shown.set_serial_number("ArXiv:2001.00001".to_string());
    shown.set_archive("math".to_string());
    assert_eq!(addons(&shown, &shown), ["ArXiv:2001.00001 [math]", "Jan.", "2020"]);

    let mut hosted = Entry::new("p", EntryType::Book);
    hosted.set_serial_number("7".to_string());
    hosted.set_url(url("https://ARXIV.org/abs/7"));
    let hosted = under(hosted, vec![Entry::new("p", EntryType::Repository)]);
    assert_eq!(addons(&hosted, &hosted), ["arXiv: 7"]);
    let mut elsewhere = Entry::new("p", EntryType::Book);
    elsewhere.set_serial_number("7".to_string());
    elsewhere.set_url(url("https://example.org/7"));
    let elsewhere = under(elsewhere, vec![Entry::new("p", EntryType::Repository)]);
    assert_eq!(addons(&elsewhere, &elsewhere), ["7"]);
}

#[test]
fn web_items_and_blogs() {
    let mut item = Entry::new("w", EntryType::WebItem);
    item.set_organization("Org".to_string());
    assert_eq!(layout(&item, &item), Layout::Web);
    assert_eq!(addons(&item, &item), ["Org"]);
    item.set_publisher("Site".to_string());
    assert_eq!(addons(&item, &item), ["Site"]);
    assert!(addons(&Entry::new("b", EntryType::Blog), &Entry::new("b", EntryType::Blog)).is_empty());
}

#[test]
fn works_under_web_items_and_blogs() {
    let mut work = under(Entry::new("e", EntryType::Misc), vec![titled("w", EntryType::Blog, "T")]);
    assert_eq!(layout(&work, &work), Layout::WebParented(0));
    assert_eq!(addons(&work, &work), ["T"]);
    // The title of the parent comes before every publisher and organization.
    work.set_publisher("Own".to_string());
    work.set_organization("Own Org".to_string());
    assert_eq!(addons(&work, &work), ["T"]);

    let mut site = Entry::new("w", EntryType::WebItem);
    site.set_organization("Site Org".to_string());
    let mut work = under(Entry::new("e", EntryType::Misc), vec![site.clone()]);
    assert_eq!(addons(&work, &work), ["Site Org"]);
    work.set_organization("Own Org".to_string());
    assert_eq!(addons(&work, &work), ["Site Org"]);
    work.set_publisher("Own".to_string());
    assert_eq!(addons(&work, &work), ["Own"]);
    site.set_publisher("Site".to_string());
    let mut work = under(work, vec![site]);
    assert_eq!(addons(&work, &work), ["Site"]);
    work.set_parents(vec![Entry::new("v", EntryType::Video), Entry::new("w", EntryType::Blog)]);
    assert_eq!(layout(&work, &work), Layout::WebParented(1));
    assert_eq!(addons(&work, &work), ["Own"]);
    let bare = under(Entry::new("e", EntryType::Misc), vec![Entry::new("w", EntryType::Blog)]);
    assert!(addons(&bare, &bare).is_empty());
    assert_eq!(
        IeeeBibliographyGenerator::new().get_addons(
            &bare,
            &bare,
            &Typeset { editors: Vec::new(), organization: None },
            None,
            None
        ),
        Vec::<String>::new()
    );
}

#[test]
fn parts_that_follow_outside_calls() {
    assert!(marks_arxiv("2001.00001", "arxiv.org", ""));
    assert!(marks_arxiv("2001.00001", "example.org", "arxiv"));
    assert!(marks_arxiv("", "arxiv.org", "arxiv"));
    assert!(!marks_arxiv("arxiv:2001.00001", "arxiv.org", "arxiv"));
    assert!(!marks_arxiv("2001.00001", "example.org", "the arxiv"));
    assert!(!marks_arxiv("2001.00001", "www.arxiv.org", ""));
    assert!(!marks_arxiv("2001.00001", "Arxiv.org", "ArXiv"));

    assert_eq!(imprint_line(Some("Ulm"), "Press", Some("German")), "Ulm: Press (in German)");
    assert_eq!(imprint_line(None, "Press", Some("German")), "Press (in German)");
    assert_eq!(imprint_line(Some("Ulm"), "Press", None), "Ulm: Press");
    assert_eq!(imprint_line(None, "", None), "");

    let mut text = DisplayString::new();
    text.push_str("a ");
    add_language_note(&mut text, None);
    assert_eq!(text.value, "a ");
    add_language_note(&mut text, Some("French"));
    assert_eq!(text.value, "a (in French) ");
    assert!(text.formatting.is_empty());
}

#[test]
fn other_works() {
    let mut book = Entry::new("b", EntryType::Book);
    book.set_authors(vec![person("A")]);
    book.set_editors(vec![person("E"), person("F"), person("G")]);
    book.set_volume(NumRange { start: 2, end: 2 });
    book.set_edition(NumOrStr::Number(3));
    book.set_publisher("Press".to_string());
    book.set_location("Ulm".to_string());
    book.set_date(on(1987, Some(3), Some(3)));
    book.set_page_range(NumRange { start: 1, end: 99 });
    assert_eq!(layout(&book, &book), Layout::Other);
    assert_eq!(
        addons(&book, &book),
        ["E, F, and G, Eds.", "vol. 2", "3rd ed.", "Ulm: Press", "1987", "ch. 2", "sec. 5", "pp. 1–99"]
    );
    // Editors are listed only where the work has an author.
    book.set_authors(Vec::new());
    assert_eq!(
        addons(&book, &book),
        ["vol. 2", "3rd ed.", "Ulm: Press", "1987", "ch. 2", "sec. 5", "pp. 1–99"]
    );
    assert!(addon_sources(&book, &book).editors.is_none());

    let mut chapter = Entry::new("b", EntryType::Chapter);
    chapter.set_authors(vec![person("A")]);
    chapter.set_language("it".to_string());
    let mut whole = Entry::new("b", EntryType::Book);
    whole.set_editors(vec![person("E")]);
    whole.set_organization("Circle".to_string());
    whole.set_date(on(1950, None, None));
    let chapter = under(chapter, vec![whole.clone()]);
    assert_eq!(
        addons(&chapter, &whole),
        ["E, Ed.", "Circle (in Italian)", "1950", "ch. 2", "sec. 5"]
    );
    assert_eq!(
        IeeeBibliographyGenerator::new()
            .try_get_addons(&chapter, &whole, &Typeset { editors: vec![], organization: None }, None, None)
            .unwrap(),
        [", Ed.", "Circle (in Italian)", "1950"]
    );
}

fn defined(entry: &Entry, canonical: &Entry) -> bool {
    let typeset = Typeset { editors: Vec::new(), organization: None };
    IeeeBibliographyGenerator::new()
        .try_get_addons(entry, canonical, &typeset, None, None)
        .is_some()
}

#[test]
fn addons_that_cannot_be_printed_are_refused() {
    // A thirteenth month cannot be printed, nor can the day after the last.
    let periodical = Entry::new("j", EntryType::Periodical);
    let mut article = Entry::new("j", EntryType::Article);
    article.set_date(on(2000, Some(12), None));
    assert!(!defined(&article, &periodical));
    article.set_date(on(2000, Some(11), Some(255)));
    assert!(!defined(&article, &periodical));
    article.set_date(on(2000, Some(11), Some(254)));
    assert!(defined(&article, &periodical));
    // Where only the year is printed the month does not matter.
    let mut thesis = Entry::new("t", EntryType::Thesis);
    thesis.set_date(on(2000, Some(12), None));
    assert!(defined(&thesis, &thesis));
    // A language without a name cannot be noted.
    let mut book = Entry::new("b", EntryType::Book);
    book.set_language("tlh".to_string());
    assert!(defined(&book, &book));
    book.set_publisher("Press".to_string());
    assert!(!defined(&book, &book));
    book.set_language("nl".to_string());
    assert!(defined(&book, &book));
}
