//! What an IEEE reference prints after the title of a work: editors, volume,
//! edition, publisher, place, date, pages and identifiers, as the kind of
//! the work and of its canonical parent ask for.

use crate::entry::Entry;
use crate::kind::EntryType;
use crate::lang::en::{
    decimal, format_range, get_month_abbr, get_ordinal, month_abbr, number_text, ordinal,
    range_text,
};
use crate::lang::{language_name, language_of};
use crate::output::ieee::title::{num_text, related, slice_of};
use crate::output::ieee::{and_list_text, IeeeBibliographyGenerator};
use crate::relation::{EntryTypeModality, EntryTypeSpec, ModalityView, SpecView};
use crate::text::{
    contains_text, has_part, lowercase, lowercase_of, opt_ref, same_text, texts,
};
use crate::traverse::{ancestors, first_date, first_url};
use crate::types::{opt_text, Date, NumOrStr, NumOrStrView, NumRange, Person};
use crate::urls::{host_text, url_host_text};
use vstd::prelude::*;
use vstd::string::StringExecFns;

verus! {

/// The shape of what is printed after the title, by the kind of the work and
/// of its canonical parent.
#[derive(Clone, Copy, Debug, PartialEq, Eq)]
pub enum Layout {
    /// The canonical parent is a conference or its proceedings.
    Meeting,
    /// The canonical parent is a work of reference.
    Reference,
    /// The canonical parent is a repository.
    Repository,
    /// The canonical parent is a video.
    Video,
    /// The canonical parent is a patent.
    Patent,
    /// The canonical parent is a periodical.
    Periodical,
    /// The canonical parent is a report.
    Report,
    /// The canonical parent is a thesis.
    Thesis,
    /// The canonical parent is a piece of legislation.
    Legislation,
    /// The canonical parent is a manuscript.
    Manuscript,
    /// The work is a preprint: an article, a book or a text of an anthology
    /// with a repository as its parent at this position.
    Preprint(usize),
    /// The work is a web item or a blog.
    Web,
    /// The work has a web item or a blog as its parent at this position.
    WebParented(usize),
    /// None of the above.
    Other,
}

/// The relation of a preprint to the repository that holds it.
pub open spec fn preprint_relation() -> SpecView {
    SpecView {
        here: ModalityView::Alternate(
            seq![EntryType::Article, EntryType::Book, EntryType::InAnthology],
        ),
        parent: ModalityView::Specific(EntryType::Repository),
    }
}

/// The relation of a work to the web item or blog that holds it.
pub open spec fn web_relation() -> SpecView {
    SpecView {
        here: ModalityView::Any,
        parent: ModalityView::Alternate(seq![EntryType::Blog, EntryType::WebItem]),
    }
}

/// The layout for a work and its canonical parent: the first that fits, in
/// the order of [`Layout`].
pub open spec fn layout_of(e: Entry, c: Entry) -> Layout {
    let kind = c.entry_type;
    if kind == EntryType::Conference || kind == EntryType::Proceedings {
        Layout::Meeting
    } else if kind == EntryType::Reference {
        Layout::Reference
    } else if kind == EntryType::Repository {
        Layout::Repository
    } else if kind == EntryType::Video {
        Layout::Video
    } else if kind == EntryType::Patent {
        Layout::Patent
    } else if kind == EntryType::Periodical {
        Layout::Periodical
    } else if kind == EntryType::Report {
        Layout::Report
    } else if kind == EntryType::Thesis {
        Layout::Thesis
    } else if kind == EntryType::Legislation {
        Layout::Legislation
    } else if kind == EntryType::Manuscript {
        Layout::Manuscript
    } else if related(e@, preprint_relation()) is Some {
        Layout::Preprint(related(e@, preprint_relation())->0 as usize)
    } else if e.entry_type == EntryType::WebItem || e.entry_type == EntryType::Blog {
        Layout::Web
    } else if related(e@, web_relation()) is Some {
        Layout::WebParented(related(e@, web_relation())->0 as usize)
    } else {
        Layout::Other
    }
}

fn kinds_of_three(a: EntryType, b: EntryType, c: EntryType) -> (r: Vec<EntryType>)
    ensures
        r@ == seq![a, b, c],
{
    let mut r: Vec<EntryType> = Vec::new();
    r.push(a);
    r.push(b);
    r.push(c);
    assert(r@ =~= seq![a, b, c]);
    r
}

fn kinds_of_two(a: EntryType, b: EntryType) -> (r: Vec<EntryType>)
    ensures
        r@ == seq![a, b],
{
    let mut r: Vec<EntryType> = Vec::new();
    r.push(a);
    r.push(b);
    assert(r@ =~= seq![a, b]);
    r
}

/// The layout for a work and its canonical parent.
pub fn layout(entry: &Entry, canonical: &Entry) -> (r: Layout)
    ensures
        r == layout_of(*entry, *canonical),
        r matches Layout::Preprint(i) ==> i < entry.parents.len(),
        r matches Layout::WebParented(i) ==> i < entry.parents.len(),
{
    let kind = canonical.entry_type;
    if kind == EntryType::Conference || kind == EntryType::Proceedings {
        return Layout::Meeting;
    } else if kind == EntryType::Reference {
        return Layout::Reference;
    } else if kind == EntryType::Repository {
        return Layout::Repository;
    } else if kind == EntryType::Video {
        return Layout::Video;
    } else if kind == EntryType::Patent {
        return Layout::Patent;
    } else if kind == EntryType::Periodical {
        return Layout::Periodical;
    } else if kind == EntryType::Report {
        return Layout::Report;
    } else if kind == EntryType::Thesis {
        return Layout::Thesis;
    } else if kind == EntryType::Legislation {
        return Layout::Legislation;
    } else if kind == EntryType::Manuscript {
        return Layout::Manuscript;
    }
    let preprint = EntryTypeSpec::single_parent(
        EntryTypeModality::Alternate(
            kinds_of_three(EntryType::Article, EntryType::Book, EntryType::InAnthology),
        ),
        EntryTypeModality::Specific(EntryType::Repository),
    );
    match entry.check_with_spec(&preprint) {
        Ok(i) => {
            return Layout::Preprint(i);
        },
        Err(_) => {},
    }
    if entry.entry_type == EntryType::WebItem || entry.entry_type == EntryType::Blog {
        return Layout::Web;
    }
    let web = EntryTypeSpec::single_parent(
        EntryTypeModality::Any,
        EntryTypeModality::Alternate(kinds_of_two(EntryType::Blog, EntryType::WebItem)),
    );
    match entry.check_with_spec(&web) {
        Ok(i) => Layout::WebParented(i),
        Err(_) => Layout::Other,
    }
}

/// The first of two optional values that is there.
pub open spec fn or_else<T>(a: Option<T>, b: Option<T>) -> Option<T> {
    match a {
        Some(x) => Some(x),
        None => b,
    }
}

/// The first of two optional texts that is there.
fn text_or<'a>(a: &'a Option<String>, b: &'a Option<String>) -> (r: Option<&'a str>)
    ensures
        slice_of(r) == or_else(opt_text(*a), opt_text(*b)),
{
    match a {
        Some(x) => Some(x.as_str()),
        None => match b {
            Some(y) => Some(y.as_str()),
            None => None,
        },
    }
}

/// The first of two optional ranges that is there.
fn range_or(a: &Option<NumRange>, b: &Option<NumRange>) -> (r: Option<NumRange>)
    ensures
        r == or_else(*a, *b),
{
    match a {
        Some(x) => Some(*x),
        None => *b,
    }
}

fn text_in(o: &Option<String>) -> (r: Option<&str>)
    ensures
        slice_of(r) == opt_text(*o),
{
    match o {
        Some(s) => Some(s.as_str()),
        None => None,
    }
}

/// Two texts, one after the other.
fn join(a: &str, b: &str) -> (r: String)
    ensures
        r@ == a@ + b@,
{
    let mut r = String::from_str(a);
    r.append(b);
    r
}

/// Three texts, one after the other.
fn join3(a: &str, b: &str, c: &str) -> (r: String)
    ensures
        r@ == a@ + b@ + c@,
{
    let mut r = String::from_str(a);
    r.append(b);
    r.append(c);
    r
}

/// Adds a part.
fn put(parts: &mut Vec<String>, part: String)
    ensures
        texts(final(parts)@) == texts(old(parts)@).push(part@),
{
    parts.push(part);
    assert(texts(parts@) =~= texts(old(parts)@).push(part@));
}

/// The parts with one more, if there is one.
pub open spec fn with_part(parts: Seq<Seq<char>>, part: Option<Seq<char>>) -> Seq<Seq<char>> {
    match part {
        Some(p) => parts.push(p),
        None => parts,
    }
}

/// The parts with a text after a prefix, if there is a text.
pub open spec fn with_prefixed(
    parts: Seq<Seq<char>>,
    prefix: Seq<char>,
    text: Option<Seq<char>>,
) -> Seq<Seq<char>> {
    match text {
        Some(t) => parts.push(prefix + t),
        None => parts,
    }
}

fn put_part(parts: &mut Vec<String>, part: Option<&str>)
    ensures
        texts(final(parts)@) == with_part(texts(old(parts)@), slice_of(part)),
{
    match part {
        Some(p) => {
            put(parts, String::from_str(p));
        },
        None => {},
    }
}

fn put_prefixed(parts: &mut Vec<String>, prefix: &str, text: Option<&str>)
    ensures
        texts(final(parts)@) == with_prefixed(texts(old(parts)@), prefix@, slice_of(text)),
{
    match text {
        Some(t) => {
            put(parts, join(prefix, t));
        },
        None => {},
    }
}

/// The parts with the volumes, if there are any.
pub open spec fn with_volume(parts: Seq<Seq<char>>, volume: Option<NumRange>) -> Seq<Seq<char>> {
    match volume {
        Some(v) => parts.push(range_text("vol."@, "vols."@, v)),
        None => parts,
    }
}

fn put_volume(parts: &mut Vec<String>, volume: Option<NumRange>)
    ensures
        texts(final(parts)@) == with_volume(texts(old(parts)@), volume),
{
    match volume {
        Some(v) => {
            put(parts, format_range("vol.", "vols.", &v));
        },
        None => {},
    }
}

/// The parts with the pages, if there are any.
pub open spec fn with_pages(parts: Seq<Seq<char>>, pages: Option<NumRange>) -> Seq<Seq<char>> {
    match pages {
        Some(p) => parts.push(range_text("p."@, "pp."@, p)),
        None => parts,
    }
}

fn put_pages(parts: &mut Vec<String>, pages: Option<NumRange>)
    ensures
        texts(final(parts)@) == with_pages(texts(old(parts)@), pages),
{
    match pages {
        Some(p) => {
            put(parts, format_range("p.", "pp.", &p));
        },
        None => {},
    }
}

/// The parts with the issue, if there is one.
pub open spec fn with_issue(parts: Seq<Seq<char>>, issue: Option<NumOrStrView>) -> Seq<Seq<char>> {
    match issue {
        Some(i) => parts.push("no. "@ + num_text(i)),
        None => parts,
    }
}

fn put_issue(parts: &mut Vec<String>, issue: &Option<NumOrStr>)
    ensures
        texts(final(parts)@) == with_issue(texts(old(parts)@), crate::fields::opt_view(*issue)),
{
    match issue {
        Some(i) => {
            put(parts, join("no. ", i.to_text().as_str()));
        },
        None => {},
    }
}

/// The parts with the edition: the ordinal of a number above one, or the
/// text of the edition as it is.
pub open spec fn with_edition(parts: Seq<Seq<char>>, edition: Option<NumOrStrView>) -> Seq<
    Seq<char>,
> {
    match edition {
        Some(NumOrStrView::Number(i)) => if i > 1 {
            parts.push(ordinal(i as int) + " ed."@)
        } else {
            parts
        },
        Some(NumOrStrView::Str(s)) => parts.push(s),
        None => parts,
    }
}

fn put_edition(parts: &mut Vec<String>, edition: &Option<NumOrStr>)
    ensures
        texts(final(parts)@) == with_edition(texts(old(parts)@), crate::fields::opt_view(*edition)),
{
    match edition {
        Some(NumOrStr::Number(i)) => {
            if *i > 1 {
                put(parts, join(get_ordinal(*i).as_str(), " ed."));
            }
        },
        Some(NumOrStr::Str(s)) => {
            put(parts, s.clone());
        },
        None => {},
    }
}

/// Whether a date can be printed with its month and day: the month, if
/// there is one, is one of the twelve, and the day is not the last that a
/// byte can count.
pub open spec fn printable(d: Date) -> bool {
    match d.month {
        Some(m) => m < 12 && (d.day is Some ==> d.day->0 < 255),
        None => true,
    }
}

/// Whether an optional date can be printed.
pub open spec fn printable_opt(d: Option<Date>) -> bool {
    d is Some ==> printable(d->0)
}

/// The month of a date with its day: the abbreviation of the month and,
/// where the day is known, the number of the day.
pub open spec fn month_day(d: Date) -> Seq<char> {
    let month = month_abbr(d.month->0, true)->0;
    match d.day {
        Some(day) => month + " "@ + decimal(day + 1),
        None => month,
    }
}

fn month_and_day(d: &Date) -> (r: String)
    requires
        d.month is Some,
        printable(*d),
    ensures
        r@ == month_day(*d),
{
    let month = match get_month_abbr(d.month.unwrap(), true) {
        Some(m) => m,
        None => String::new(),
    };
    match d.day {
        Some(day) => {
            let number = number_text(day as i64 + 1);
            join3(month.as_str(), " ", number.as_str())
        },
        None => month,
    }
}

/// The parts with the month and, after it, the year of a date.
pub open spec fn with_month_and_year(parts: Seq<Seq<char>>, date: Option<Date>) -> Seq<Seq<char>> {
    match date {
        Some(d) => (if d.month is Some {
            parts.push(month_day(d))
        } else {
            parts
        }).push(decimal(d.year as int)),
        None => parts,
    }
}

fn put_month_and_year(parts: &mut Vec<String>, date: Option<&Date>)
    requires
        date is Some ==> printable(*date->0),
    ensures
        texts(final(parts)@) == with_month_and_year(
            texts(old(parts)@),
            match date {
                Some(d) => Some(*d),
                None => None,
            },
        ),
{
    match date {
        Some(d) => {
            if d.month.is_some() {
                put(parts, month_and_day(d));
            }
            put(parts, number_text(d.year as i64));
        },
        None => {},
    }
}

/// A date in one text: the month with the day, if they are known, and the
/// year.
pub open spec fn date_text(d: Date) -> Seq<char> {
    (match d.month {
        Some(m) => match d.day {
            Some(day) => month_abbr(m, true)->0 + " "@ + decimal(day + 1) + ", "@,
            None => month_abbr(m, true)->0 + " "@,
        },
        None => Seq::empty(),
    }) + decimal(d.year as int)
}

fn date_as_text(d: &Date) -> (r: String)
    requires
        printable(*d),
    ensures
        r@ == date_text(*d),
{
    let mut r = match d.month {
        Some(m) => {
            let month = match get_month_abbr(m, true) {
                Some(name) => name,
                None => String::new(),
            };
            match d.day {
                Some(day) => {
                    let number = number_text(day as i64 + 1);
                    let mut r = join3(month.as_str(), " ", number.as_str());
                    r.append(", ");
                    r
                },
                None => join(month.as_str(), " "),
            }
        },
        None => String::new(),
    };
    r.append(number_text(d.year as i64).as_str());
    r
}

/// The parts with the editors: the list of their names, and "Ed." or, for
/// more than one, "Eds." after it.
pub open spec fn with_editors(
    parts: Seq<Seq<char>>,
    threshold: Option<u32>,
    names: Seq<Seq<char>>,
) -> Seq<Seq<char>> {
    parts.push(
        and_list_text(threshold, names) + (if names.len() > 1 {
            ", Eds."@
        } else {
            ", Ed."@
        }),
    )
}

/// A publisher with the place before it and the language after it.
pub open spec fn publisher_line(
    location: Option<Seq<char>>,
    publisher: Seq<char>,
    language: Option<Seq<char>>,
) -> Seq<char> {
    let placed = match location {
        Some(l) => Seq::empty() + l + ": "@,
        None => Seq::empty(),
    };
    let named = placed + publisher;
    match language {
        Some(n) => named + " (in "@ + n + ")"@,
        None => named,
    }
}

/// A publisher with the place before it and the name of the language of the
/// work after it.
pub fn imprint_line(location: Option<&str>, publisher: &str, language: Option<&str>) -> (r: String)
    ensures
        r@ == publisher_line(slice_of(location), publisher@, slice_of(language)),
{
    let mut r = String::new();
    match location {
        Some(l) => {
            r.append(l);
            r.append(": ");
        },
        None => {},
    }
    r.append(publisher);
    match language {
        Some(n) => {
            r.append(" (in ");
            r.append(n);
            r.append(")");
        },
        None => {},
    }
    r
}

/// What the caller has typeset for the addons of a work.
#[derive(Debug, PartialEq, Eq)]
pub struct Typeset {
    /// The names of the editors that are listed, in the order of the
    /// editors.
    pub editors: Vec<String>,
    /// The name of the organization behind a thesis, abbreviated.
    pub organization: Option<String>,
}

/// [`Typeset`] as a mathematical value.
pub struct TypesetView {
    /// The names of the editors that are listed.
    pub editors: Seq<Seq<char>>,
    /// The name of the organization behind a thesis, abbreviated.
    pub organization: Option<Seq<char>>,
}

impl View for Typeset {
    type V = TypesetView;

    open spec fn view(&self) -> TypesetView {
        TypesetView { editors: texts(self.editors@), organization: opt_text(self.organization) }
    }
}

/// The date of a work: its own or that of the first of its ancestors that
/// has one.
pub open spec fn date_of(e: Entry) -> Option<Date> {
    first_date(seq![e] + ancestors(e))
}

/// Whether a URL is shown with a work: whether it or one of its ancestors
/// has one.
pub open spec fn shows_url(e: Entry) -> bool {
    first_url(seq![e] + ancestors(e)) is Some
}

/// The date of a work as one text, if the work has a date.
pub open spec fn dated(e: Entry) -> Option<Seq<char>> {
    match date_of(e) {
        Some(d) => Some(date_text(d)),
        None => None,
    }
}

/// The parts with a publisher and, after it, the place, if there is a
/// publisher.
pub open spec fn with_published(
    parts: Seq<Seq<char>>,
    publisher: Option<Seq<char>>,
    location: Option<Seq<char>>,
) -> Seq<Seq<char>> {
    match publisher {
        Some(p) => with_part(parts.push(p), location),
        None => parts,
    }
}

fn put_published(parts: &mut Vec<String>, publisher: Option<&str>, location: Option<&str>)
    ensures
        texts(final(parts)@) == with_published(
            texts(old(parts)@),
            slice_of(publisher),
            slice_of(location),
        ),
{
    match publisher {
        Some(p) => {
            put(parts, String::from_str(p));
            put_part(parts, location);
        },
        None => {},
    }
}

/// The parts with a text between two others, if there is a text.
pub open spec fn with_wrapped(
    parts: Seq<Seq<char>>,
    before: Seq<char>,
    text: Option<Seq<char>>,
    after: Seq<char>,
) -> Seq<Seq<char>> {
    match text {
        Some(t) => parts.push(before + t + after),
        None => parts,
    }
}

fn put_wrapped(parts: &mut Vec<String>, before: &str, text: Option<&str>, after: &str)
    ensures
        texts(final(parts)@) == with_wrapped(texts(old(parts)@), before@, slice_of(text), after@),
{
    match text {
        Some(t) => {
            put(parts, join3(before, t, after));
        },
        None => {},
    }
}

/// The year of an optional date as a text.
pub open spec fn year_of(date: Option<Date>) -> Option<Seq<char>> {
    match date {
        Some(d) => Some(decimal(d.year as int)),
        None => None,
    }
}

fn year_text(date: Option<&Date>) -> (r: Option<String>)
    ensures
        opt_text(r) == year_of(
            match date {
                Some(d) => Some(*d),
                None => None,
            },
        ),
{
    match date {
        Some(d) => Some(number_text(d.year as i64)),
        None => None,
    }
}

/// The date of the canonical parent or, where it has none, the date of the
/// work.
pub open spec fn released(e: Entry, c: Entry) -> Option<Date> {
    or_else(c.fields.date, date_of(e))
}

fn release_date<'a>(entry: &'a Entry, canonical: &'a Entry) -> (r: Option<&'a Date>)
    ensures
        r == opt_ref(&released(*entry, *canonical)),
{
    match &canonical.fields.date {
        Some(d) => Some(d),
        None => entry.date_any(),
    }
}

/// The language tag that the addons note the language of: that of the work
/// or, where it has none, that of its canonical parent.
pub open spec fn noted_tag(e: Entry, c: Entry) -> Option<Seq<char>> {
    or_else(opt_text(e.fields.language), opt_text(c.fields.language))
}

/// The language that the addons note, if they note one.
pub open spec fn noted_language(e: Entry, c: Entry) -> Option<Seq<char>> {
    match noted_tag(e, c) {
        Some(tag) => language_of(tag),
        None => None,
    }
}

/// The publisher that stands in one part with its place and the language of
/// the work: the publisher of the canonical parent or, where it has none,
/// its organization.
pub open spec fn imprint(c: Entry) -> Option<Seq<char>> {
    or_else(opt_text(c.fields.publisher), opt_text(c.fields.organization))
}

/// The parts with the imprint, if there is one.
pub open spec fn with_imprint(parts: Seq<Seq<char>>, e: Entry, c: Entry) -> Seq<Seq<char>> {
    match imprint(c) {
        Some(publisher) => parts.push(
            publisher_line(opt_text(c.fields.location), publisher, noted_language(e, c)),
        ),
        None => parts,
    }
}

/// Whether the language that the imprint notes, if it notes one, has a name.
pub open spec fn imprint_language_known(e: Entry, c: Entry) -> bool {
    imprint(c) is Some && noted_tag(e, c) is Some ==> noted_language(e, c) is Some
}

fn put_imprint(parts: &mut Vec<String>, entry: &Entry, canonical: &Entry)
    requires
        imprint_language_known(*entry, *canonical),
    ensures
        texts(final(parts)@) == with_imprint(texts(old(parts)@), *entry, *canonical),
{
    match text_or(&canonical.fields.publisher, &canonical.fields.organization) {
        Some(publisher) => {
            let language = match text_or(&entry.fields.language, &canonical.fields.language) {
                Some(tag) => language_name(tag),
                None => None,
            };
            let line = imprint_line(
                text_in(&canonical.fields.location),
                publisher,
                text_in(&language),
            );
            put(parts, line);
        },
        None => {},
    }
}

/// A copy of a list of texts.
fn copy_texts(v: &Vec<String>) -> (r: Vec<String>)
    ensures
        texts(r@) == texts(v@),
{
    let mut r: Vec<String> = Vec::new();
    let mut i: usize = 0;
    while i < v.len()
        invariant
            i <= v.len(),
            r@.len() == i,
            forall|j: int| 0 <= j < i ==> r@[j]@ == v@[j]@,
        decreases v.len() - i,
    {
        r.push(v[i].clone());
        i += 1;
    }
    assert(texts(r@) =~= texts(v@));
    r
}

impl IeeeBibliographyGenerator {
    fn put_editors(&self, parts: &mut Vec<String>, names: &Vec<String>)
        ensures
            texts(final(parts)@) == with_editors(
                texts(old(parts)@),
                self.et_al_threshold,
                texts(names@),
            ),
    {
        let mut list = self.and_list(copy_texts(names));
        assert(texts(names@).len() == names.len());
        if names.len() > 1 {
            list.append(", Eds.");
        } else {
            list.append(", Ed.");
        }
        put(parts, list);
    }
}

/// The addons of a work whose canonical parent is a conference or its
/// proceedings.
pub open spec fn meeting(threshold: Option<u32>, e: Entry, c: Entry, t: TypesetView) -> Seq<
    Seq<char>,
> {
    let p = Seq::<Seq<char>>::empty();
    let p = if c.entry_type == EntryType::Proceedings {
        let p = if c.fields.editors is Some {
            with_editors(p, threshold, t.editors)
        } else {
            p
        };
        let p = with_volume(p, or_else(e.fields.volume, c.fields.volume));
        with_edition(p, crate::fields::opt_view(c.fields.edition))
    } else {
        p
    };
    let p = with_part(p, opt_text(c.fields.location));
    let p = with_month_and_year(p, date_of(e));
    if c.entry_type == EntryType::Conference {
        with_prefixed(p, "Paper "@, opt_text(e.fields.serial_number))
    } else {
        with_prefixed(with_pages(p, e.fields.page_range), "doi: "@, opt_text(e.fields.doi))
    }
}

/// The addons of a work whose canonical parent is a work of reference.
pub open spec fn reference(e: Entry, c: Entry) -> Seq<Seq<char>> {
    let p = with_edition(Seq::<Seq<char>>::empty(), crate::fields::opt_view(c.fields.edition));
    if !shows_url(e) {
        let p = with_published(
            p,
            or_else(opt_text(c.fields.organization), opt_text(c.fields.publisher)),
            opt_text(c.fields.location),
        );
        let p = with_part(p, dated(e));
        with_pages(p, e.fields.page_range)
    } else {
        with_wrapped(p, "("@, dated(e), ")"@)
    }
}

/// The addons of a work whose canonical parent is a repository.
pub open spec fn repository(e: Entry, c: Entry) -> Seq<Seq<char>> {
    let p = Seq::<Seq<char>>::empty();
    let p = match opt_text(c.fields.serial_number) {
        Some(version) => with_wrapped(p, "(version "@, Some(version), ")"@),
        None => with_wrapped(p, "("@, year_of(released(e, c)), ")"@),
    };
    with_imprint(p, e, c)
}

/// The addons of a work whose canonical parent is a video.
pub open spec fn video(e: Entry, c: Entry) -> Seq<Seq<char>> {
    with_wrapped(Seq::<Seq<char>>::empty(), "("@, year_of(released(e, c)), ")"@)
}

/// The name and number of a patent: the place, the word "Patent" and the
/// serial number.
pub open spec fn patent_name(c: Entry) -> Seq<char> {
    let placed = match opt_text(c.fields.location) {
        Some(l) => Seq::empty() + l + " "@,
        None => Seq::empty(),
    };
    let named = placed + "Patent"@;
    match opt_text(c.fields.serial_number) {
        Some(number) => named + " "@ + number,
        None => named,
    }
}

/// The date of a patent before its name: the year and, after it, the month
/// with the day, in parentheses.
pub open spec fn patent_date(date: Option<Date>) -> Seq<char> {
    match date {
        Some(d) => {
            let year = Seq::empty() + "("@ + decimal(d.year as int);
            let month = if d.month is Some {
                year + ", "@ + month_day(d)
            } else {
                year
            };
            month + "). "@
        },
        None => Seq::empty(),
    }
}

/// The addons of a work whose canonical parent is a patent.
pub open spec fn patent(e: Entry, c: Entry) -> Seq<Seq<char>> {
    let p = Seq::<Seq<char>>::empty();
    if shows_url(e) {
        p.push(patent_date(date_of(e)) + patent_name(c))
    } else {
        with_month_and_year(p.push(patent_name(c)), date_of(e))
    }
}

/// The addons of a work whose canonical parent is a periodical.
pub open spec fn periodical(e: Entry, c: Entry) -> Seq<Seq<char>> {
    let p = with_volume(Seq::<Seq<char>>::empty(), c.fields.volume);
    let p = with_issue(p, crate::fields::opt_view(c.fields.issue));
    let p = with_pages(p, e.fields.page_range);
    let p = with_month_and_year(p, date_of(e));
    let p = if e.fields.page_range is None {
        with_prefixed(p, "Art. no. "@, opt_text(e.fields.serial_number))
    } else {
        p
    };
    with_prefixed(p, "doi: "@, opt_text(e.fields.doi))
}

/// The addons of a work whose canonical parent is a report.
pub open spec fn report(e: Entry, c: Entry) -> Seq<Seq<char>> {
    let p = with_published(
        Seq::<Seq<char>>::empty(),
        or_else(opt_text(c.fields.organization), opt_text(c.fields.publisher)),
        opt_text(c.fields.location),
    );
    let p = with_prefixed(p, "Rep. "@, opt_text(c.fields.serial_number));
    let p = if !shows_url(e) {
        with_part(p, dated(e))
    } else {
        p
    };
    let p = with_volume(p, or_else(c.fields.volume, e.fields.volume));
    let p = with_issue(p, crate::fields::opt_view(c.fields.issue));
    if shows_url(e) {
        with_part(p, dated(e))
    } else {
        p
    }
}

/// The addons of a work whose canonical parent is a thesis.
pub open spec fn thesis(e: Entry, c: Entry, t: TypesetView) -> Seq<Seq<char>> {
    let p = Seq::<Seq<char>>::empty().push("Thesis"@);
    let p = with_published(p, t.organization, opt_text(c.fields.location));
    let p = with_part(p, opt_text(e.fields.serial_number));
    with_part(p, year_of(date_of(e)))
}

/// The addons of a web item or a blog.
pub open spec fn web(e: Entry) -> Seq<Seq<char>> {
    with_part(
        Seq::<Seq<char>>::empty(),
        or_else(opt_text(e.fields.publisher), opt_text(e.fields.organization)),
    )
}

/// The addons of a work under a web item or a blog: the title of that
/// parent or, where it has none, the publisher of the parent or of the work
/// or, where they have none, the organization of the parent or of the work.
pub open spec fn web_parented(e: Entry, parent: Entry) -> Seq<Seq<char>> {
    with_part(
        Seq::<Seq<char>>::empty(),
        or_else(
            or_else(
                or_else(opt_text(parent.fields.title), opt_text(parent.fields.publisher)),
                opt_text(e.fields.publisher),
            ),
            or_else(opt_text(parent.fields.organization), opt_text(e.fields.organization)),
        ),
    )
}

/// Whether the editors of a work of no particular layout are listed: the
/// work has an author, and it or its canonical parent has editors.
pub open spec fn lists_editors(e: Entry, c: Entry) -> bool {
    e.fields.authors is Some && e.fields.authors->0@.len() > 0 && (e.fields.editors is Some
        || c.fields.editors is Some)
}

/// A number after a word, if there is a number.
pub open spec fn counted(word: Seq<char>, n: Option<u32>) -> Option<Seq<char>> {
    match n {
        Some(i) => Some(word + decimal(i as int)),
        None => None,
    }
}

/// The addons of a work of no particular layout.
pub open spec fn other(
    threshold: Option<u32>,
    e: Entry,
    c: Entry,
    t: TypesetView,
    chapter: Option<u32>,
    section: Option<u32>,
) -> Seq<Seq<char>> {
    let p = Seq::<Seq<char>>::empty();
    let p = if lists_editors(e, c) {
        with_editors(p, threshold, t.editors)
    } else {
        p
    };
    let p = with_volume(p, or_else(e.fields.volume, c.fields.volume));
    let p = with_edition(p, crate::fields::opt_view(c.fields.edition));
    let p = with_imprint(p, e, c);
    let p = with_part(p, year_of(date_of(c)));
    let p = with_part(p, counted("ch. "@, chapter));
    let p = with_part(p, counted("sec. "@, section));
    with_pages(p, e.fields.page_range)
}

fn dated_text(entry: &Entry) -> (r: Option<String>)
    requires
        printable_opt(date_of(*entry)),
    ensures
        opt_text(r) == dated(*entry),
{
    match entry.date_any() {
        Some(d) => Some(date_as_text(d)),
        None => None,
    }
}

fn count_text(word: &str, n: Option<u32>) -> (r: Option<String>)
    ensures
        opt_text(r) == counted(word@, n),
{
    match n {
        Some(i) => Some(join(word, number_text(i as i64).as_str())),
        None => None,
    }
}

impl IeeeBibliographyGenerator {
    fn meeting_addons(&self, entry: &Entry, canonical: &Entry, typeset: &Typeset) -> (r: Vec<String>)
        requires
            printable_opt(date_of(*entry)),
        ensures
            texts(r@) == meeting(self.et_al_threshold, *entry, *canonical, typeset@),
    {
        let mut res: Vec<String> = Vec::new();
        assert(texts(res@) =~= Seq::<Seq<char>>::empty());
        if canonical.entry_type == EntryType::Proceedings {
            if canonical.fields.editors.is_some() {
                self.put_editors(&mut res, &typeset.editors);
            }
            put_volume(&mut res, range_or(&entry.fields.volume, &canonical.fields.volume));
            put_edition(&mut res, &canonical.fields.edition);
        }
        put_part(&mut res, text_in(&canonical.fields.location));
        put_month_and_year(&mut res, entry.date_any());
        if canonical.entry_type == EntryType::Conference {
            put_prefixed(&mut res, "Paper ", text_in(&entry.fields.serial_number));
        } else {
            put_pages(&mut res, entry.fields.page_range);
            put_prefixed(&mut res, "doi: ", text_in(&entry.fields.doi));
        }
        res
    }

    fn reference_addons(&self, entry: &Entry, canonical: &Entry) -> (r: Vec<String>)
        requires
            printable_opt(date_of(*entry)),
        ensures
            texts(r@) == reference(*entry, *canonical),
    {
        let mut res: Vec<String> = Vec::new();
        assert(texts(res@) =~= Seq::<Seq<char>>::empty());
        let has_url = self.show_url(entry);
        let date = dated_text(entry);
        put_edition(&mut res, &canonical.fields.edition);
        if !has_url {
            put_published(
                &mut res,
                text_or(&canonical.fields.organization, &canonical.fields.publisher),
                text_in(&canonical.fields.location),
            );
            put_part(&mut res, text_in(&date));
            put_pages(&mut res, entry.fields.page_range);
        } else {
            put_wrapped(&mut res, "(", text_in(&date), ")");
        }
        res
    }

    fn repository_addons(&self, entry: &Entry, canonical: &Entry) -> (r: Vec<String>)
        requires
            imprint_language_known(*entry, *canonical),
        ensures
            texts(r@) == repository(*entry, *canonical),
    {
        let mut res: Vec<String> = Vec::new();
        assert(texts(res@) =~= Seq::<Seq<char>>::empty());
        match &canonical.fields.serial_number {
            Some(version) => {
                put_wrapped(&mut res, "(version ", Some(version.as_str()), ")");
            },
            None => {
                let year = year_text(release_date(entry, canonical));
                put_wrapped(&mut res, "(", text_in(&year), ")");
            },
        }
        put_imprint(&mut res, entry, canonical);
        res
    }

    fn video_addons(&self, entry: &Entry, canonical: &Entry) -> (r: Vec<String>)
        ensures
            texts(r@) == video(*entry, *canonical),
    {
        let mut res: Vec<String> = Vec::new();
        assert(texts(res@) =~= Seq::<Seq<char>>::empty());
        let year = year_text(release_date(entry, canonical));
        put_wrapped(&mut res, "(", text_in(&year), ")");
        res
    }

    fn patent_addons(&self, entry: &Entry, canonical: &Entry) -> (r: Vec<String>)
        requires
            printable_opt(date_of(*entry)),
        ensures
            texts(r@) == patent(*entry, *canonical),
    {
        let mut res: Vec<String> = Vec::new();
        assert(texts(res@) =~= Seq::<Seq<char>>::empty());
        let mut start = String::new();
        match &canonical.fields.location {
            Some(l) => {
                start.append(l.as_str());
                start.append(" ");
            },
            None => {},
        }
        start.append("Patent");
        match &canonical.fields.serial_number {
            Some(number) => {
                start.append(" ");
                start.append(number.as_str());
            },
            None => {},
        }
        if self.show_url(entry) {
            let mut fin = String::new();
            match entry.date_any() {
                Some(d) => {
                    fin.append("(");
                    fin.append(number_text(d.year as i64).as_str());
                    if d.month.is_some() {
                        fin.append(", ");
                        fin.append(month_and_day(d).as_str());
                    }
                    fin.append("). ");
                },
                None => {},
            }
            fin.append(start.as_str());
            put(&mut res, fin);
        } else {
            put(&mut res, start);
            put_month_and_year(&mut res, entry.date_any());
        }
        res
    }

    fn periodical_addons(&self, entry: &Entry, canonical: &Entry) -> (r: Vec<String>)
        requires
            printable_opt(date_of(*entry)),
        ensures
            texts(r@) == periodical(*entry, *canonical),
    {
        let mut res: Vec<String> = Vec::new();
        assert(texts(res@) =~= Seq::<Seq<char>>::empty());
        put_volume(&mut res, canonical.fields.volume);
        put_issue(&mut res, &canonical.fields.issue);
        put_pages(&mut res, entry.fields.page_range);
        put_month_and_year(&mut res, entry.date_any());
        if entry.fields.page_range.is_none() {
            put_prefixed(&mut res, "Art. no. ", text_in(&entry.fields.serial_number));
        }
        put_prefixed(&mut res, "doi: ", text_in(&entry.fields.doi));
        res
    }

    fn report_addons(&self, entry: &Entry, canonical: &Entry) -> (r: Vec<String>)
        requires
            printable_opt(date_of(*entry)),
        ensures
            texts(r@) == report(*entry, *canonical),
    {
        let mut res: Vec<String> = Vec::new();
        assert(texts(res@) =~= Seq::<Seq<char>>::empty());
        put_published(
            &mut res,
            text_or(&canonical.fields.organization, &canonical.fields.publisher),
            text_in(&canonical.fields.location),
        );
        put_prefixed(&mut res, "Rep. ", text_in(&canonical.fields.serial_number));
        let date = dated_text(entry);
        let has_url = self.show_url(entry);
        if !has_url {
            put_part(&mut res, text_in(&date));
        }
        put_volume(&mut res, range_or(&canonical.fields.volume, &entry.fields.volume));
        put_issue(&mut res, &canonical.fields.issue);
        if has_url {
            put_part(&mut res, text_in(&date));
        }
        res
    }

    fn thesis_addons(&self, entry: &Entry, canonical: &Entry, typeset: &Typeset) -> (r: Vec<String>)
        ensures
            texts(r@) == thesis(*entry, *canonical, typeset@),
    {
        let mut res: Vec<String> = Vec::new();
        assert(texts(res@) =~= Seq::<Seq<char>>::empty());
        put(&mut res, String::from_str("Thesis"));
        put_published(
            &mut res,
            text_in(&typeset.organization),
            text_in(&canonical.fields.location),
        );
        put_part(&mut res, text_in(&entry.fields.serial_number));
        let year = year_text(entry.date_any());
        put_part(&mut res, text_in(&year));
        res
    }

    fn web_addons(&self, entry: &Entry) -> (r: Vec<String>)
        ensures
            texts(r@) == web(*entry),
    {
        let mut res: Vec<String> = Vec::new();
        assert(texts(res@) =~= Seq::<Seq<char>>::empty());
        put_part(&mut res, text_or(&entry.fields.publisher, &entry.fields.organization));
        res
    }

    fn web_parented_addons(&self, entry: &Entry, parent: &Entry) -> (r: Vec<String>)
        ensures
            texts(r@) == web_parented(*entry, *parent),
    {
        let mut res: Vec<String> = Vec::new();
        assert(texts(res@) =~= Seq::<Seq<char>>::empty());
        let named = match text_or(&parent.fields.title, &parent.fields.publisher) {
            Some(name) => Some(name),
            None => text_in(&entry.fields.publisher),
        };
        let part = match named {
            Some(name) => Some(name),
            None => text_or(&parent.fields.organization, &entry.fields.organization),
        };
        put_part(&mut res, part);
        res
    }

    fn other_addons(
        &self,
        entry: &Entry,
        canonical: &Entry,
        typeset: &Typeset,
        chapter: Option<u32>,
        section: Option<u32>,
    ) -> (r: Vec<String>)
        requires
            imprint_language_known(*entry, *canonical),
        ensures
            texts(r@) == other(
                self.et_al_threshold,
                *entry,
                *canonical,
                typeset@,
                chapter,
                section,
            ),
    {
        let mut res: Vec<String> = Vec::new();
        assert(texts(res@) =~= Seq::<Seq<char>>::empty());
        let has_author = match &entry.fields.authors {
            Some(authors) => authors.len() > 0,
            None => false,
        };
        if has_author && (entry.fields.editors.is_some() || canonical.fields.editors.is_some()) {
            self.put_editors(&mut res, &typeset.editors);
        }
        put_volume(&mut res, range_or(&entry.fields.volume, &canonical.fields.volume));
        put_edition(&mut res, &canonical.fields.edition);
        put_imprint(&mut res, entry, canonical);
        let year = year_text(canonical.date_any());
        put_part(&mut res, text_in(&year));
        let chapter_text = count_text("ch. ", chapter);
        put_part(&mut res, text_in(&chapter_text));
        let section_text = count_text("sec. ", section);
        put_part(&mut res, text_in(&section_text));
        put_pages(&mut res, entry.fields.page_range);
        res
    }
}

/// A text, or the empty text where there is none.
pub open spec fn or_empty(o: Option<Seq<char>>) -> Seq<char> {
    match o {
        Some(t) => t,
        None => Seq::empty(),
    }
}

/// Whether a serial number is marked as that of an arXiv preprint, given the
/// number, the host of the URL of the work and the title of the repository,
/// all in lower case: the number does not say "arxiv" itself, and the host
/// is arxiv.org or the repository is called arxiv.
pub open spec fn arxiv_marked(number: Seq<char>, host: Seq<char>, title: Seq<char>) -> bool {
    !has_part(number, "arxiv"@) && (host == "arxiv.org"@ || title == "arxiv"@)
}

/// Whether a serial number is marked as that of an arXiv preprint, given the
/// number, the host of the URL of the work and the title of the repository,
/// all in lower case.
pub fn marks_arxiv(number: &str, host: &str, title: &str) -> (r: bool)
    ensures
        r == arxiv_marked(number@, host@, title@),
{
    !contains_text(number, "arxiv") && (same_text(host, "arxiv.org") || same_text(title, "arxiv"))
}

/// Whether a preprint with the given serial number is marked as an arXiv
/// preprint: the work is shown with a URL, and the number, the host of that
/// URL and the title of the repository, put in lower case, ask for the mark.
pub open spec fn is_arxiv(e: Entry, repository: Entry, number: Seq<char>) -> bool {
    match first_url(seq![e] + ancestors(e)) {
        Some(url) => arxiv_marked(
            lowercase_of(number),
            lowercase_of(or_empty(url_host_text(url.value@))),
            lowercase_of(or_empty(opt_text(repository.fields.title))),
        ),
        None => false,
    }
}

/// The serial number of a preprint as it is printed: marked where it is an
/// arXiv preprint, and with the archive after it in brackets.
pub open spec fn preprint_number(e: Entry, repository: Entry, number: Seq<char>) -> Seq<char> {
    let marked = if is_arxiv(e, repository, number) {
        "arXiv: "@ + number
    } else {
        number
    };
    match or_else(opt_text(e.fields.archive), opt_text(repository.fields.archive)) {
        Some(archive) => marked + " ["@ + archive + "]"@,
        None => marked,
    }
}

/// The addons of a preprint in the given repository.
pub open spec fn preprint(e: Entry, repository: Entry) -> Seq<Seq<char>> {
    let p = Seq::<Seq<char>>::empty();
    let p = match opt_text(e.fields.serial_number) {
        Some(number) => p.push(preprint_number(e, repository, number)),
        None => p,
    };
    with_month_and_year(p, date_of(e))
}

fn arxiv(entry: &Entry, repository: &Entry, number: &str) -> (r: bool)
    ensures
        r == is_arxiv(*entry, *repository, number@),
{
    proof {
        reveal_strlit("");
        assert(""@ =~= Seq::<char>::empty());
    }
    match entry.url_any() {
        Some(url) => {
            let host = host_text(url.value.as_str());
            let host = match &host {
                Some(h) => h.as_str(),
                None => "",
            };
            let title = match &repository.fields.title {
                Some(t) => t.as_str(),
                None => "",
            };
            marks_arxiv(
                lowercase(number).as_str(),
                lowercase(host).as_str(),
                lowercase(title).as_str(),
            )
        },
        None => false,
    }
}

impl IeeeBibliographyGenerator {
    fn preprint_addons(&self, entry: &Entry, repository: &Entry) -> (r: Vec<String>)
        requires
            printable_opt(date_of(*entry)),
        ensures
            texts(r@) == preprint(*entry, *repository),
    {
        let mut res: Vec<String> = Vec::new();
        assert(texts(res@) =~= Seq::<Seq<char>>::empty());
        match &entry.fields.serial_number {
            Some(number) => {
                let mut shown = if arxiv(entry, repository, number.as_str()) {
                    join("arXiv: ", number.as_str())
                } else {
                    number.clone()
                };
                match text_or(&entry.fields.archive, &repository.fields.archive) {
                    Some(archive) => {
                        shown.append(" [");
                        shown.append(archive);
                        shown.append("]");
                    },
                    None => {},
                }
                put(&mut res, shown);
            },
            None => {},
        }
        put_month_and_year(&mut res, entry.date_any());
        res
    }
}

/// Whether a layout prints the month of the date of the work.
pub open spec fn prints_month(l: Layout) -> bool {
    l is Meeting || l is Reference || l is Patent || l is Periodical || l is Report || l
        is Preprint
}

/// Whether a layout prints the imprint of the canonical parent.
pub open spec fn prints_imprint(l: Layout) -> bool {
    l is Repository || l is Other
}

/// Whether the addons of a work are defined: the date that is printed with
/// its month can be printed, and the language that is noted has a name.
pub open spec fn addons_defined(e: Entry, c: Entry) -> bool {
    let l = layout_of(e, c);
    &&& prints_month(l) ==> printable_opt(date_of(e))
    &&& prints_imprint(l) ==> imprint_language_known(e, c)
}

/// The addons of a work with its canonical parent: the parts that follow the
/// title, in the order in which they are printed.
pub open spec fn addons(
    threshold: Option<u32>,
    e: Entry,
    c: Entry,
    t: TypesetView,
    chapter: Option<u32>,
    section: Option<u32>,
) -> Seq<Seq<char>> {
    match layout_of(e, c) {
        Layout::Meeting => meeting(threshold, e, c, t),
        Layout::Reference => reference(e, c),
        Layout::Repository => repository(e, c),
        Layout::Video => video(e, c),
        Layout::Patent => patent(e, c),
        Layout::Periodical => periodical(e, c),
        Layout::Report => report(e, c),
        Layout::Thesis => thesis(e, c, t),
        Layout::Legislation => Seq::empty(),
        Layout::Manuscript => seq!["unpublished"@],
        Layout::Preprint(i) => preprint(e, e.parents@[i as int]),
        Layout::Web => web(e),
        Layout::WebParented(i) => web_parented(e, e.parents@[i as int]),
        Layout::Other => other(threshold, e, c, t, chapter, section),
    }
}

/// What is to be typeset for the addons of a work.
#[derive(Debug)]
pub struct AddonSources<'a> {
    /// The editors whose names are listed.
    pub editors: Option<&'a Vec<Person>>,
    /// The organization behind a thesis.
    pub organization: Option<&'a str>,
}

/// The editors whose names the addons list: for proceedings their editors;
/// for a work of no particular layout that has an author, its editors or,
/// where it has none, those of its canonical parent.
pub open spec fn listed_editors(e: Entry, c: Entry) -> Option<Vec<Person>> {
    match layout_of(e, c) {
        Layout::Meeting => if c.entry_type == EntryType::Proceedings {
            c.fields.editors
        } else {
            None
        },
        Layout::Other => if lists_editors(e, c) {
            or_else(e.fields.editors, c.fields.editors)
        } else {
            None
        },
        _ => None,
    }
}

/// The organization whose name the addons print abbreviated: that of a
/// thesis.
pub open spec fn abbreviated_organization(e: Entry, c: Entry) -> Option<Seq<char>> {
    match layout_of(e, c) {
        Layout::Thesis => opt_text(c.fields.organization),
        _ => None,
    }
}

/// What is to be typeset for the addons of a work with its canonical parent.
pub fn addon_sources<'a>(entry: &'a Entry, canonical: &'a Entry) -> (r: AddonSources<'a>)
    ensures
        r.editors == opt_ref(&listed_editors(*entry, *canonical)),
        slice_of(r.organization) == abbreviated_organization(*entry, *canonical),
{
    match layout(entry, canonical) {
        Layout::Meeting => {
            let editors = if canonical.entry_type == EntryType::Proceedings {
                canonical.fields.editors.as_ref()
            } else {
                None
            };
            AddonSources { editors, organization: None }
        },
        Layout::Thesis => AddonSources {
            editors: None,
            organization: text_in(&canonical.fields.organization),
        },
        Layout::Other => {
            let has_author = match &entry.fields.authors {
                Some(authors) => authors.len() > 0,
                None => false,
            };
            let editors = if has_author {
                match &entry.fields.editors {
                    Some(editors) => Some(editors),
                    None => canonical.fields.editors.as_ref(),
                }
            } else {
                None
            };
            AddonSources { editors, organization: None }
        },
        _ => AddonSources { editors: None, organization: None },
    }
}

fn can_print(date: Option<&Date>) -> (r: bool)
    ensures
        r == printable_opt(
            match date {
                Some(d) => Some(*d),
                None => None,
            },
        ),
{
    match date {
        Some(d) => match d.month {
            Some(m) => m < 12 && match d.day {
                Some(day) => day < 255,
                None => true,
            },
            None => true,
        },
        None => true,
    }
}

fn imprint_language_is_known(entry: &Entry, canonical: &Entry) -> (r: bool)
    ensures
        r == imprint_language_known(*entry, *canonical),
{
    match text_or(&canonical.fields.publisher, &canonical.fields.organization) {
        Some(_) => match text_or(&entry.fields.language, &canonical.fields.language) {
            Some(tag) => language_name(tag).is_some(),
            None => true,
        },
        None => true,
    }
}

impl IeeeBibliographyGenerator {
    /// The addons of a work with its canonical parent, which is the work
    /// itself where it has none: the parts that follow the title. The names
    /// of editors and the abbreviated organization come typeset from the
    /// caller.
    pub fn get_addons(
        &self,
        entry: &Entry,
        canonical: &Entry,
        typeset: &Typeset,
        chapter: Option<u32>,
        section: Option<u32>,
    ) -> (r: Vec<String>)
        requires
            addons_defined(*entry, *canonical),
        ensures
            texts(r@) == addons(
                self.et_al_threshold,
                *entry,
                *canonical,
                typeset@,
                chapter,
                section,
            ),
    {
        match layout(entry, canonical) {
            Layout::Meeting => self.meeting_addons(entry, canonical, typeset),
            Layout::Reference => self.reference_addons(entry, canonical),
            Layout::Repository => self.repository_addons(entry, canonical),
            Layout::Video => self.video_addons(entry, canonical),
            Layout::Patent => self.patent_addons(entry, canonical),
            Layout::Periodical => self.periodical_addons(entry, canonical),
            Layout::Report => self.report_addons(entry, canonical),
            Layout::Thesis => self.thesis_addons(entry, canonical, typeset),
            Layout::Legislation => {
                let res: Vec<String> = Vec::new();
                assert(texts(res@) =~= Seq::<Seq<char>>::empty());
                res
            },
            Layout::Manuscript => {
                let mut res: Vec<String> = Vec::new();
                res.push(String::from_str("unpublished"));
                assert(texts(res@) =~= seq!["unpublished"@]);
                res
            },
            Layout::Preprint(i) => self.preprint_addons(entry, &entry.parents[i]),
            Layout::Web => self.web_addons(entry),
            Layout::WebParented(i) => self.web_parented_addons(entry, &entry.parents[i]),
            Layout::Other => self.other_addons(entry, canonical, typeset, chapter, section),
        }
    }

    /// The addons of a work with its canonical parent; nothing where they
    /// are not defined.
    pub fn try_get_addons(
        &self,
        entry: &Entry,
        canonical: &Entry,
        typeset: &Typeset,
        chapter: Option<u32>,
        section: Option<u32>,
    ) -> (r: Option<Vec<String>>)
        ensures
            match r {
                Some(parts) => addons_defined(*entry, *canonical) && texts(parts@) == addons(
                    self.et_al_threshold,
                    *entry,
                    *canonical,
                    typeset@,
                    chapter,
                    section,
                ),
                None => !addons_defined(*entry, *canonical),
            },
    {
        let defined = match layout(entry, canonical) {
            Layout::Meeting => can_print(entry.date_any()),
            Layout::Reference => can_print(entry.date_any()),
            Layout::Patent => can_print(entry.date_any()),
            Layout::Periodical => can_print(entry.date_any()),
            Layout::Report => can_print(entry.date_any()),
            Layout::Preprint(_) => can_print(entry.date_any()),
            Layout::Repository => imprint_language_is_known(entry, canonical),
            Layout::Other => imprint_language_is_known(entry, canonical),
            _ => true,
        };
        if defined {
            Some(self.get_addons(entry, canonical, typeset, chapter, section))
        } else {
            None
        }
    }
}

} // verus!
