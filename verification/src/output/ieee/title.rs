//! The title of a work as an IEEE reference prints it: the title of the work
//! itself and, where the work has a canonical parent, the title of that
//! parent with what is known of its series.

use crate::display::{DisplayString, DisplayView, FormatVariantOptions};
use crate::entry::{lemma_parents_view, Entry, EntryView};
use crate::kind::EntryType;
use crate::lang::en::{decimal, number_text};
use crate::lang::{language_name, language_of};
use crate::output::ieee::{canonical_parent, get_canonical_parent, IeeeBibliographyGenerator};
use crate::relation::{
    related_parent, EntryTypeModality, EntryTypeSpec, ModalityView, SpecView,
};
use crate::types::{NumOrStr, NumOrStrView};
use vstd::prelude::*;

verus! {

/// The titles that the title element of an entry is made of, each in the
/// case in which it is printed.
#[derive(Debug, PartialEq, Eq)]
pub struct Titles {
    /// The title of the entry, in sentence case.
    pub sentence: Option<String>,
    /// The title of the entry, in title case.
    pub own: Option<String>,
    /// The title of the canonical parent, in title case and abbreviated.
    pub container: Option<String>,
    /// The title of the series of the canonical parent, in title case.
    pub series: Option<String>,
    /// The title of the conference series of the canonical parent, in title
    /// case.
    pub conference: Option<String>,
}

/// [`Titles`] as a mathematical value.
pub struct TitlesView {
    /// The title of the entry, in sentence case.
    pub sentence: Option<Seq<char>>,
    /// The title of the entry, in title case.
    pub own: Option<Seq<char>>,
    /// The title of the canonical parent, in title case and abbreviated.
    pub container: Option<Seq<char>>,
    /// The title of the series of the canonical parent, in title case.
    pub series: Option<Seq<char>>,
    /// The title of the conference series of the canonical parent.
    pub conference: Option<Seq<char>>,
}

/// The text of an optional string.
pub open spec fn text_of(o: Option<String>) -> Option<Seq<char>> {
    match o {
        Some(s) => Some(s@),
        None => None,
    }
}

impl View for Titles {
    type V = TitlesView;

    open spec fn view(&self) -> TitlesView {
        TitlesView {
            sentence: text_of(self.sentence),
            own: text_of(self.own),
            container: text_of(self.container),
            series: text_of(self.series),
            conference: text_of(self.conference),
        }
    }
}

/// The titles, as the entries hold them, of which the title element of an
/// entry is made.
#[derive(Debug, PartialEq, Eq)]
pub struct TitleSources<'a> {
    /// The title of the entry.
    pub own: Option<&'a str>,
    /// The title of the canonical parent.
    pub container: Option<&'a str>,
    /// The title of the series of the canonical parent.
    pub series: Option<&'a str>,
    /// The title of the conference series of the canonical parent.
    pub conference: Option<&'a str>,
}

/// [`TitleSources`] as a mathematical value.
pub struct SourcesView {
    /// The title of the entry.
    pub own: Option<Seq<char>>,
    /// The title of the canonical parent.
    pub container: Option<Seq<char>>,
    /// The title of the series of the canonical parent.
    pub series: Option<Seq<char>>,
    /// The title of the conference series of the canonical parent.
    pub conference: Option<Seq<char>>,
}

/// The text of an optional string slice.
pub open spec fn slice_of(o: Option<&str>) -> Option<Seq<char>> {
    match o {
        Some(s) => Some(s@),
        None => None,
    }
}

impl<'a> View for TitleSources<'a> {
    type V = SourcesView;

    open spec fn view(&self) -> SourcesView {
        SourcesView {
            own: slice_of(self.own),
            container: slice_of(self.container),
            series: slice_of(self.series),
            conference: slice_of(self.conference),
        }
    }
}

/// The relation of an anthology to the anthology that is its series.
pub open spec fn anthology_series() -> SpecView {
    SpecView {
        here: ModalityView::Specific(EntryType::Anthology),
        parent: ModalityView::Specific(EntryType::Anthology),
    }
}

/// The relation of proceedings to the work that is their series.
pub open spec fn conference_series() -> SpecView {
    SpecView {
        here: ModalityView::Specific(EntryType::Proceedings),
        parent: ModalityView::Alternate(
            seq![EntryType::Proceedings, EntryType::Anthology, EntryType::Misc],
        ),
    }
}

/// The position of the parent that is related to the entry, if there is one.
pub open spec fn related(e: EntryView, s: SpecView) -> Option<int> {
    match related_parent(e, s) {
        Ok(i) => Some(i),
        Err(_) => None,
    }
}

/// The title of the parent that is related to the entry, if there is one
/// with a title.
pub open spec fn related_title(e: EntryView, s: SpecView) -> Option<Seq<char>> {
    match related(e, s) {
        Some(i) => e.parents[i].fields.title,
        None => None,
    }
}

/// Whether an entry with this canonical parent prints the series of the
/// parent: the parent has a title and is no conference.
pub open spec fn prints_series(c: EntryView) -> bool {
    c.fields.title is Some && c.entry_type != EntryType::Conference
}

/// The titles of which the title element of an entry is made.
pub open spec fn title_sources_of(e: EntryView) -> SourcesView {
    match canonical_parent(e) {
        Some(k) => {
            let c = e.parents[k];
            SourcesView {
                own: e.fields.title,
                container: c.fields.title,
                series: if prints_series(c) {
                    related_title(c, anthology_series())
                } else {
                    None
                },
                conference: if prints_series(c) {
                    related_title(c, conference_series())
                } else {
                    None
                },
            }
        },
        None => SourcesView { own: e.fields.title, container: None, series: None, conference: None },
    }
}

/// A number or a text as it is printed.
pub open spec fn num_text(n: NumOrStrView) -> Seq<char> {
    match n {
        NumOrStrView::Number(i) => decimal(i as int),
        NumOrStrView::Str(s) => s,
    }
}

/// The text between quotation marks, with a comma before the closing mark.
pub open spec fn quoted(d: DisplayView, text: Seq<char>) -> DisplayView {
    d.push_str("“"@).push_str(text).push_str(",”"@)
}

/// The text in italics.
pub open spec fn italic(d: DisplayView, text: Seq<char>) -> DisplayView {
    d.start_format(FormatVariantOptions::Italic).push_str(text).commit_formats()
}

/// The title of the entry before the title of its canonical parent: with a
/// period before a conference, in quotation marks otherwise, and a blank
/// where more follows.
pub open spec fn with_entry_title(
    d: DisplayView,
    sentence: Option<Seq<char>>,
    at_conference: bool,
    more: bool,
) -> DisplayView {
    match sentence {
        Some(title) => {
            let shown = if at_conference {
                d.push_str(title).push_str("."@)
            } else {
                quoted(d, title)
            };
            if more {
                shown.push_str(" "@)
            } else {
                shown
            }
        },
        None => d,
    }
}

/// The note on the language of a work.
pub open spec fn language_note(d: DisplayView, name: Option<Seq<char>>) -> DisplayView {
    match name {
        Some(n) => d.push_str("(in "@).push_str(n).push_str(") "@),
        None => d,
    }
}

/// The series of an anthology, in parentheses, with the issue of the series.
pub open spec fn with_series(d: DisplayView, c: EntryView, series: Option<Seq<char>>) -> DisplayView {
    match (related(c, anthology_series()), series) {
        (Some(j), Some(title)) => {
            let named = d.push_str(" ("@).push_str(title);
            let numbered = match c.parents[j].fields.issue {
                Some(issue) => named.push_str(", no. "@).push_str(num_text(issue)),
                None => named,
            };
            numbered.push_str(")"@)
        },
        _ => d,
    }
}

/// The series of proceedings.
pub open spec fn with_conference(d: DisplayView, c: EntryView, conference: Option<Seq<char>>) -> DisplayView {
    match (related(c, conference_series()), conference) {
        (Some(_), Some(title)) => d.push_str(" in "@).push_str(title),
        _ => d,
    }
}

/// The language tag of which a title element notes the language: that of
/// the entry or, where it has none, that of its canonical parent.
pub open spec fn noted_tag(e: EntryView, c: EntryView) -> Option<Seq<char>> {
    match e.fields.language {
        Some(tag) => Some(tag),
        None => c.fields.language,
    }
}

/// The language that a title element notes.
pub open spec fn noted_language(e: EntryView, c: EntryView) -> Option<Seq<char>> {
    match noted_tag(e, c) {
        Some(tag) => language_of(tag),
        None => None,
    }
}

/// Whether a title element notes a language: the canonical parent is
/// printed with its title, is no conference, and there is a language tag.
pub open spec fn notes_language(e: EntryView, t: TitlesView) -> bool {
    match canonical_parent(e) {
        Some(k) => t.container is Some && e.parents[k].entry_type != EntryType::Conference
            && noted_tag(e, e.parents[k]) is Some,
        None => false,
    }
}

/// Whether the language that a title element notes, if it notes one, has a
/// name.
pub open spec fn language_known(e: EntryView, t: TitlesView) -> bool {
    notes_language(e, t) ==> noted_language(e, e.parents[canonical_parent(e)->0]) is Some
}

/// The title element of an entry with the canonical parent `c`.
pub open spec fn contained(e: EntryView, c: EntryView, t: TitlesView) -> DisplayView {
    let start = with_entry_title(
        DisplayView::empty(),
        t.sentence,
        c.entry_type == EntryType::Conference,
        t.container is Some,
    );
    match t.container {
        Some(title) => if c.entry_type == EntryType::Conference {
            start.push_str("Presented at "@).push_str(title)
        } else {
            let noted = language_note(start, noted_language(e, c));
            let placed = if e.entry_type != EntryType::Article || c.entry_type
                != EntryType::Periodical {
                noted.push_str("in "@)
            } else {
                noted
            };
            with_conference(with_series(italic(placed, title), c, t.series), c, t.conference)
        },
        None => start,
    }
}

/// Whether works of the kind are printed in italics where they stand alone.
pub open spec fn stands_in_italics(kind: EntryType) -> bool {
    kind == EntryType::Legislation || kind == EntryType::Repository || kind == EntryType::Video
        || kind == EntryType::Reference || kind == EntryType::Book || kind
        == EntryType::Proceedings || kind == EntryType::Anthology
}

/// The title element of an entry without a canonical parent.
pub open spec fn standalone(e: EntryView, t: TitlesView) -> DisplayView {
    if stands_in_italics(e.entry_type) {
        let started = DisplayView::empty().start_format(FormatVariantOptions::Italic);
        let numbered = if e.entry_type == EntryType::Legislation {
            match e.fields.serial_number {
                Some(number) => started.push_str(number),
                None => started,
            }
        } else {
            started
        };
        let titled = match t.own {
            Some(title) => (if numbered.value.len() > 0 {
                numbered.push_str(", "@)
            } else {
                numbered
            }).push_str(title),
            None => numbered,
        };
        titled.commit_formats()
    } else {
        match t.sentence {
            Some(title) => quoted(DisplayView::empty(), title),
            None => DisplayView::empty(),
        }
    }
}

/// The title element of an entry.
pub open spec fn title_element(e: EntryView, t: TitlesView) -> DisplayView {
    match canonical_parent(e) {
        Some(k) => contained(e, e.parents[k], t),
        None => standalone(e, t),
    }
}

impl NumOrStr {
    /// The number or the text as it is printed.
    pub fn to_text(&self) -> (r: String)
        ensures
            r@ == num_text(self@),
    {
        match self {
            NumOrStr::Number(n) => number_text(*n),
            NumOrStr::Str(s) => s.clone(),
        }
    }
}

fn title_of(e: &Entry) -> (r: Option<&str>)
    ensures
        slice_of(r) == e@.fields.title,
{
    match &e.fields.title {
        Some(t) => Some(t.as_str()),
        None => None,
    }
}

fn anthology_series_spec() -> (r: EntryTypeSpec)
    ensures
        r@ == anthology_series(),
{
    EntryTypeSpec::single_parent(
        EntryTypeModality::Specific(EntryType::Anthology),
        EntryTypeModality::Specific(EntryType::Anthology),
    )
}

fn conference_series_spec() -> (r: EntryTypeSpec)
    ensures
        r@ == conference_series(),
{
    let mut kinds: Vec<EntryType> = Vec::new();
    kinds.push(EntryType::Proceedings);
    kinds.push(EntryType::Anthology);
    kinds.push(EntryType::Misc);
    assert(kinds@ =~= seq![EntryType::Proceedings, EntryType::Anthology, EntryType::Misc]);
    EntryTypeSpec::single_parent(
        EntryTypeModality::Specific(EntryType::Proceedings),
        EntryTypeModality::Alternate(kinds),
    )
}

/// The parent that is related to the entry, if there is one.
fn related_to<'a>(e: &'a Entry, spec: &EntryTypeSpec) -> (r: Option<&'a Entry>)
    ensures
        match related(e@, spec@) {
            Some(i) => 0 <= i < e.parents.len() && r == Some(&e.parents@[i]) && r->0@
                == e@.parents[i],
            None => r is None,
        },
{
    match e.check_with_spec(spec) {
        Ok(i) => {
            proof {
                lemma_parents_view(*e);
            }
            Some(&e.parents[i])
        },
        Err(_) => None,
    }
}

/// The titles of which the title element of an entry is made, as the
/// entries hold them.
pub fn title_sources<'a>(entry: &'a Entry) -> (r: TitleSources<'a>)
    ensures
        r@ == title_sources_of(entry@),
{
    match get_canonical_parent(entry) {
        Some(canonical) => {
            proof {
                lemma_parents_view(*entry);
            }
            let container = title_of(canonical);
            let prints = container.is_some() && canonical.entry_type != EntryType::Conference;
            let series = if prints {
                match related_to(canonical, &anthology_series_spec()) {
                    Some(parent) => title_of(parent),
                    None => None,
                }
            } else {
                None
            };
            let conference = if prints {
                match related_to(canonical, &conference_series_spec()) {
                    Some(parent) => title_of(parent),
                    None => None,
                }
            } else {
                None
            };
            TitleSources { own: title_of(entry), container, series, conference }
        },
        None => TitleSources { own: title_of(entry), container: None, series: None, conference: None },
    }
}

/// Adds the note on the language of a work, given the name of the language.
pub fn add_language_note(res: &mut DisplayString, name: Option<&str>)
    ensures
        final(res)@ == language_note(old(res)@, slice_of(name)),
{
    match name {
        Some(n) => {
            res.push_str("(in ");
            res.push_str(n);
            res.push_str(") ");
        },
        None => {},
    }
}

fn add_quoted(res: &mut DisplayString, text: &str)
    ensures
        final(res)@ == quoted(old(res)@, text@),
{
    res.push_str("“");
    res.push_str(text);
    res.push_str(",”");
}

fn add_italic(res: &mut DisplayString, text: &str)
    ensures
        final(res)@ == italic(old(res)@, text@),
{
    res.start_format(FormatVariantOptions::Italic);
    res.push_str(text);
    res.commit_formats();
}

fn add_entry_title(res: &mut DisplayString, sentence: &Option<String>, at_conference: bool, more: bool)
    ensures
        final(res)@ == with_entry_title(old(res)@, text_of(*sentence), at_conference, more),
{
    match sentence {
        Some(title) => {
            if at_conference {
                res.push_str(title.as_str());
                res.push_str(".");
            } else {
                add_quoted(res, title.as_str());
            }
            if more {
                res.push_str(" ");
            }
        },
        None => {},
    }
}

fn add_series(res: &mut DisplayString, canonical: &Entry, series: &Option<String>)
    ensures
        final(res)@ == with_series(old(res)@, canonical@, text_of(*series)),
{
    match related_to(canonical, &anthology_series_spec()) {
        Some(parent) => match series {
            Some(title) => {
                res.push_str(" (");
                res.push_str(title.as_str());
                match &parent.fields.issue {
                    Some(issue) => {
                        res.push_str(", no. ");
                        res.push_str(issue.to_text().as_str());
                    },
                    None => {},
                }
                res.push_str(")");
            },
            None => {},
        },
        None => {},
    }
}

fn add_conference(res: &mut DisplayString, canonical: &Entry, conference: &Option<String>)
    ensures
        final(res)@ == with_conference(old(res)@, canonical@, text_of(*conference)),
{
    match related_to(canonical, &conference_series_spec()) {
        Some(_) => match conference {
            Some(title) => {
                res.push_str(" in ");
                res.push_str(title.as_str());
            },
            None => {},
        },
        None => {},
    }
}

fn language_tag<'a>(entry: &'a Entry, canonical: &'a Entry) -> (r: Option<&'a str>)
    ensures
        slice_of(r) == noted_tag(entry@, canonical@),
{
    match &entry.fields.language {
        Some(tag) => Some(tag.as_str()),
        None => match &canonical.fields.language {
            Some(tag) => Some(tag.as_str()),
            None => None,
        },
    }
}

fn add_standalone(res: &mut DisplayString, entry: &Entry, titles: &Titles)
    requires
        old(res)@ == DisplayView::empty(),
    ensures
        final(res)@ == standalone(entry@, titles@),
{
    let kind = entry.entry_type;
    if kind == EntryType::Legislation || kind == EntryType::Repository || kind == EntryType::Video
        || kind == EntryType::Reference || kind == EntryType::Book || kind
        == EntryType::Proceedings || kind == EntryType::Anthology {
        res.start_format(FormatVariantOptions::Italic);
        if kind == EntryType::Legislation {
            match &entry.fields.serial_number {
                Some(number) => {
                    res.push_str(number.as_str());
                },
                None => {},
            }
        }
        match &titles.own {
            Some(title) => {
                if !res.is_empty() {
                    res.push_str(", ");
                }
                res.push_str(title.as_str());
            },
            None => {},
        }
        res.commit_formats();
    } else {
        match &titles.sentence {
            Some(title) => {
                add_quoted(res, title.as_str());
            },
            None => {},
        }
    }
}

impl IeeeBibliographyGenerator {
    /// The title element of an entry, made of the given titles. The language
    /// that the element notes, if it notes one, must have a name.
    pub fn get_title_element(&self, entry: &Entry, titles: &Titles) -> (r: DisplayString)
        requires
            language_known(entry@, titles@),
        ensures
            r@ == title_element(entry@, titles@),
    {
        let mut res = DisplayString::new();
        match get_canonical_parent(entry) {
            Some(canonical) => {
                proof {
                lemma_parents_view(*entry);
            }
                let at_conference = canonical.entry_type == EntryType::Conference;
                add_entry_title(&mut res, &titles.sentence, at_conference, titles.container.is_some());
                match &titles.container {
                    Some(title) => {
                        if at_conference {
                            res.push_str("Presented at ");
                            res.push_str(title.as_str());
                        } else {
                            let language = match language_tag(entry, canonical) {
                                Some(tag) => language_name(tag),
                                None => None,
                            };
                            add_language_note(
                                &mut res,
                                match &language {
                                    Some(name) => Some(name.as_str()),
                                    None => None,
                                },
                            );
                            if entry.entry_type != EntryType::Article || canonical.entry_type
                                != EntryType::Periodical {
                                res.push_str("in ");
                            }
                            add_italic(&mut res, title.as_str());
                            add_series(&mut res, canonical, &titles.series);
                            add_conference(&mut res, canonical, &titles.conference);
                        }
                    },
                    None => {},
                }
            },
            None => {
                add_standalone(&mut res, entry, titles);
            },
        }
        res
    }

    /// The title element of an entry, made of the given titles; nothing
    /// where the element notes a language and the language has no name.
    pub fn try_get_title_element(&self, entry: &Entry, titles: &Titles) -> (r: Option<DisplayString>)
        ensures
            match r {
                Some(element) => language_known(entry@, titles@) && element@ == title_element(
                    entry@,
                    titles@,
                ),
                None => !language_known(entry@, titles@),
            },
    {
        match get_canonical_parent(entry) {
            Some(canonical) => {
                proof {
                lemma_parents_view(*entry);
            }
                if titles.container.is_some() && canonical.entry_type != EntryType::Conference {
                    match language_tag(entry, canonical) {
                        Some(tag) => {
                            if language_name(tag).is_none() {
                                return None;
                            }
                        },
                        None => {},
                    }
                }
            },
            None => {},
        }
        Some(self.get_title_element(entry, titles))
    }
}

} // verus!
