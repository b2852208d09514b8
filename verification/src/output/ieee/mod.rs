//! The IEEE reference style: who is credited for a work and how the credited
//! persons are listed, and the parent that a reference cites as the
//! container of a work.

pub mod addons;
pub mod title;

use crate::affiliation::{affiliated_in, persons_at};
use crate::entry::{Entry, EntryView};
use crate::kind::EntryType;
use crate::lang::{SentenceCase, TitleCase};
use crate::relation::{related_parent, EntryTypeModality, EntryTypeSpec, ModalityView, SpecView};
use crate::text::texts;
use crate::traverse::{ancestors, first_url};
use crate::types::{Person, PersonRole, RoleView};
use vstd::prelude::*;
use vstd::string::StringExecFns;

verus! {

/// The generator of IEEE bibliography entries.
#[derive(Clone, Copy, Debug)]
pub struct IeeeBibliographyGenerator {
    /// How titles are put in sentence case.
    pub sc_formatter: SentenceCase,
    /// How titles are put in title case.
    pub tc_formatter: TitleCase,
    /// From how many names on a list of persons is cut short; never where
    /// there is no number or the number is zero.
    pub et_al_threshold: Option<u32>,
}

/// The relation of an article in an anthology to the anthology.
pub open spec fn anthology_relation() -> SpecView {
    SpecView {
        here: ModalityView::Specific(EntryType::InAnthology),
        parent: ModalityView::Specific(EntryType::Anthology),
    }
}

/// The relation of an article to its periodical.
pub open spec fn periodical_relation() -> SpecView {
    SpecView {
        here: ModalityView::Specific(EntryType::Article),
        parent: ModalityView::Specific(EntryType::Periodical),
    }
}

/// The relation of an entry of a reference work or a repository to that work.
pub open spec fn entry_relation() -> SpecView {
    SpecView {
        here: ModalityView::Specific(EntryType::Entry),
        parent: ModalityView::Alternate(seq![EntryType::Reference, EntryType::Repository]),
    }
}

/// The relation of any work to the proceedings it appeared in.
pub open spec fn proceedings_relation() -> SpecView {
    SpecView { here: ModalityView::Any, parent: ModalityView::Specific(EntryType::Proceedings) }
}

/// The relation of a section of a work to the work.
pub open spec fn section_relation() -> SpecView {
    SpecView {
        here: ModalityView::Alternate(
            seq![EntryType::Chapter, EntryType::Scene, EntryType::WebItem],
        ),
        parent: ModalityView::Any,
    }
}

/// The position found so far or, where none was found, the position of the
/// parent that is related to the entry by `s`.
pub open spec fn or_related(found: Option<int>, e: EntryView, s: SpecView) -> Option<int> {
    match found {
        Some(i) => Some(i),
        None => match related_parent(e, s) {
            Ok(i) => Some(i),
            Err(_) => None,
        },
    }
}

/// The position of the canonical parent of an entry: the parent under the
/// first of the relations anthology, periodical, entry, proceedings and
/// section in which the entry stands.
pub open spec fn canonical_parent(e: EntryView) -> Option<int> {
    or_related(
        or_related(
            or_related(
                or_related(or_related(None, e, anthology_relation()), e, periodical_relation()),
                e,
                entry_relation(),
            ),
            e,
            proceedings_relation(),
        ),
        e,
        section_relation(),
    )
}

fn try_relation(found: Option<usize>, entry: &Entry, spec: &EntryTypeSpec) -> (r: Option<usize>)
    requires
        found is Some ==> found->0 < entry.parents.len(),
    ensures
        (match r {
            Some(i) => Some(i as int),
            None => None,
        }) == or_related(
            match found {
                Some(i) => Some(i as int),
                None => None,
            },
            entry@,
            spec@,
        ),
        r is Some ==> r->0 < entry.parents.len(),
{
    match found {
        Some(i) => Some(i),
        None => match entry.check_with_spec(spec) {
            Ok(i) => Some(i),
            Err(_) => None,
        },
    }
}

/// The canonical parent of an entry: the one parent that a reference cites
/// as the container of the work.
pub fn get_canonical_parent(entry: &Entry) -> (r: Option<&Entry>)
    ensures
        match canonical_parent(entry@) {
            Some(i) => 0 <= i < entry.parents.len() && r == Some(&entry.parents@[i]),
            None => r is None,
        },
{
    let mut section_kinds: Vec<EntryType> = Vec::new();
    section_kinds.push(EntryType::Chapter);
    section_kinds.push(EntryType::Scene);
    section_kinds.push(EntryType::WebItem);
    assert(section_kinds@ =~= seq![EntryType::Chapter, EntryType::Scene, EntryType::WebItem]);
    let section_spec = EntryTypeSpec::single_parent(
        EntryTypeModality::Alternate(section_kinds),
        EntryTypeModality::Any,
    );
    let anthology_spec = EntryTypeSpec::single_parent(
        EntryTypeModality::Specific(EntryType::InAnthology),
        EntryTypeModality::Specific(EntryType::Anthology),
    );
    let mut reference_kinds: Vec<EntryType> = Vec::new();
    reference_kinds.push(EntryType::Reference);
    reference_kinds.push(EntryType::Repository);
    assert(reference_kinds@ =~= seq![EntryType::Reference, EntryType::Repository]);
    let entry_spec = EntryTypeSpec::single_parent(
        EntryTypeModality::Specific(EntryType::Entry),
        EntryTypeModality::Alternate(reference_kinds),
    );
    let proc_spec = EntryTypeSpec::single_parent(
        EntryTypeModality::Any,
        EntryTypeModality::Specific(EntryType::Proceedings),
    );
    let periodical_spec = EntryTypeSpec::single_parent(
        EntryTypeModality::Specific(EntryType::Article),
        EntryTypeModality::Specific(EntryType::Periodical),
    );
    let found = try_relation(None, entry, &anthology_spec);
    let found = try_relation(found, entry, &periodical_spec);
    let found = try_relation(found, entry, &entry_spec);
    let found = try_relation(found, entry, &proc_spec);
    let found = try_relation(found, entry, &section_spec);
    match found {
        Some(i) => Some(&entry.parents[i]),
        None => None,
    }
}

/// Whether a list of `count` names is cut short.
pub open spec fn abridged(threshold: Option<u32>, count: nat) -> bool {
    threshold is Some && threshold->0 > 0 && count >= threshold->0
}

/// How many of `count` names are listed.
pub open spec fn listed(threshold: Option<u32>, count: nat) -> nat {
    if abridged(threshold, count) && count > 2 {
        2
    } else {
        count
    }
}

/// The name at `i` as it stands in the list: a comma after every name but
/// the last, and the word "and" before the last.
pub open spec fn list_item(names: Seq<Seq<char>>, i: int) -> Seq<char> {
    names[i] + (if i + 2 <= names.len() {
        ", "@
    } else {
        Seq::empty()
    }) + (if i + 2 == names.len() {
        "and "@
    } else {
        Seq::empty()
    })
}

/// The first `n` names as they stand in the list.
pub open spec fn list_items(names: Seq<Seq<char>>, n: int) -> Seq<char>
    decreases n,
{
    if n <= 0 {
        Seq::empty()
    } else {
        list_items(names, n - 1) + list_item(names, n - 1)
    }
}

/// The list of the names: all of them or, where the list is cut short, the
/// first two and "et al.".
pub open spec fn and_list_text(threshold: Option<u32>, names: Seq<Seq<char>>) -> Seq<char> {
    list_items(names, listed(threshold, names.len()) as int) + (if abridged(
        threshold,
        names.len(),
    ) {
        "et al."@
    } else {
        Seq::empty()
    })
}

/// Who is credited for a work.
pub struct Credits {
    /// The persons, in the order in which they are listed.
    pub persons: Seq<Person>,
    /// What follows the name of each person.
    pub tags: Seq<Seq<char>>,
    /// What follows the list.
    pub ending: Seq<char>,
}

/// The relation of an episode to its series.
pub open spec fn series_relation() -> SpecView {
    SpecView {
        here: ModalityView::Specific(EntryType::Video),
        parent: ModalityView::Specific(EntryType::Video),
    }
}

/// Whether a video is an episode of a series: it has an issue and a volume
/// and stands in the series relation.
pub open spec fn is_episode(e: Entry) -> bool {
    e.fields.issue is Some && e.fields.volume is Some && related_parent(e@, series_relation())
        is Ok
}

/// `n` times the same tag.
pub open spec fn repeated(tag: Seq<char>, n: nat) -> Seq<Seq<char>> {
    Seq::new(n, |i: int| tag)
}

/// One of two endings, by the number of persons.
pub open spec fn ending_for(count: nat, one: Seq<char>, many: Seq<char>) -> Seq<char> {
    if count == 1 {
        one
    } else {
        many
    }
}

/// The persons that are credited for a video in place of its authors, if
/// there are any: for an episode its directors and writers, each tagged; for
/// any other video its directors or, where it has none, its executive
/// producers.
pub open spec fn video_credits(e: Entry) -> Option<Credits> {
    let directors = affiliated_in(e, RoleView::Director);
    let writers = affiliated_in(e, RoleView::Writer);
    let producers = affiliated_in(e, RoleView::ExecutiveProducer);
    if is_episode(e) {
        if directors.len() > 0 {
            Some(
                Credits {
                    persons: directors + writers,
                    tags: repeated(" (Director)"@, directors.len()) + repeated(
                        " (Writer)"@,
                        writers.len(),
                    ),
                    ending: Seq::empty(),
                },
            )
        } else {
            None
        }
    } else if directors.len() > 0 {
        Some(
            Credits {
                persons: directors,
                tags: repeated(Seq::empty(), directors.len()),
                ending: ending_for(directors.len(), ", Director"@, ", Directors"@),
            },
        )
    } else if producers.len() > 0 {
        Some(
            Credits {
                persons: producers,
                tags: repeated(Seq::empty(), producers.len()),
                ending: ending_for(producers.len(), ", Executive Prod."@, ", Executive Prods."@),
            },
        )
    } else {
        None
    }
}

/// The persons of an optional list; none where there is no list.
pub open spec fn persons_of(o: Option<Vec<Person>>) -> Seq<Person> {
    match o {
        Some(v) => v@,
        None => Seq::empty(),
    }
}

/// Who is credited for a work: for a video those that [`video_credits`]
/// names; otherwise, and for a video for which it names none, the authors;
/// where there are no authors, the editors; where there are none either,
/// nobody.
pub open spec fn credits(e: Entry) -> Credits {
    let authors = persons_of(e.fields.authors);
    let editors = persons_of(e.fields.editors);
    if e.entry_type == EntryType::Video && video_credits(e) is Some {
        video_credits(e)->0
    } else if authors.len() > 0 {
        Credits {
            persons: authors,
            tags: repeated(Seq::empty(), authors.len()),
            ending: Seq::empty(),
        }
    } else if editors.len() > 0 {
        Credits {
            persons: editors,
            tags: repeated(Seq::empty(), editors.len()),
            ending: ending_for(editors.len(), ", Ed."@, ", Eds."@),
        }
    } else {
        Credits { persons: Seq::empty(), tags: Seq::empty(), ending: Seq::empty() }
    }
}

/// The tag of the name at `i`: nothing where there are fewer tags.
pub open spec fn tag_at(tags: Seq<Seq<char>>, i: int) -> Seq<char> {
    if 0 <= i < tags.len() {
        tags[i]
    } else {
        Seq::empty()
    }
}

/// Each name followed by its tag.
pub open spec fn tagged(names: Seq<Seq<char>>, tags: Seq<Seq<char>>) -> Seq<Seq<char>> {
    Seq::new(names.len(), |i: int| names[i] + tag_at(tags, i))
}

/// The line that credits the persons under the given names: the list of the
/// tagged names and the ending; nothing where nobody is credited.
pub open spec fn author_line(threshold: Option<u32>, c: Credits, names: Seq<Seq<char>>) -> Seq<
    char,
> {
    if c.persons.len() == 0 {
        Seq::empty()
    } else {
        and_list_text(threshold, tagged(names, c.tags)) + c.ending
    }
}

/// Every credited person has a tag.
pub proof fn lemma_credits_tagged(e: Entry)
    ensures
        credits(e).tags.len() == credits(e).persons.len(),
{
}

/// Who is credited for a work, as [`credited`] finds it.
#[derive(Debug)]
pub struct Credited<'a> {
    /// The persons, in the order in which they are listed.
    pub persons: Vec<&'a Person>,
    /// What follows the name of each person.
    pub tags: Vec<&'static str>,
    /// What follows the list.
    pub ending: &'static str,
}

/// The texts of a sequence of string slices.
pub open spec fn slices(v: Seq<&'static str>) -> Seq<Seq<char>> {
    v.map_values(|s: &'static str| s@)
}

impl<'a> View for Credited<'a> {
    type V = Credits;

    open spec fn view(&self) -> Credits {
        Credits {
            persons: persons_at(self.persons@),
            tags: slices(self.tags@),
            ending: self.ending@,
        }
    }
}

/// `n` times the same tag.
fn repeat_tag(tag: &'static str, n: usize) -> (r: Vec<&'static str>)
    ensures
        slices(r@) == repeated(tag@, n as nat),
{
    let mut r: Vec<&'static str> = Vec::new();
    let mut i: usize = 0;
    while i < n
        invariant
            i <= n,
            r@.len() == i,
            forall|j: int| 0 <= j < i ==> r@[j]@ == tag@,
        decreases n - i,
    {
        r.push(tag);
        i += 1;
    }
    assert(slices(r@) =~= repeated(tag@, n as nat));
    r
}

/// References to the persons of an optional list.
fn refs_of<'a>(o: &'a Option<Vec<Person>>) -> (r: Vec<&'a Person>)
    ensures
        persons_at(r@) == persons_of(*o),
{
    let mut r: Vec<&'a Person> = Vec::new();
    match o {
        Some(v) => {
            let mut i: usize = 0;
            while i < v.len()
                invariant
                    i <= v.len(),
                    r@.len() == i,
                    forall|j: int| 0 <= j < i ==> *r@[j] == v@[j],
                decreases v.len() - i,
            {
                r.push(&v[i]);
                i += 1;
            }
            assert(persons_at(r@) =~= v@);
        },
        None => {
            assert(persons_at(r@) =~= Seq::<Person>::empty());
        },
    }
    r
}

/// Who is credited for a work.
pub fn credited<'a>(entry: &'a Entry) -> (r: Credited<'a>)
    ensures
        r@ == credits(*entry),
{
    proof {
        reveal_strlit("");
        assert(""@ =~= Seq::<char>::empty());
    }
    if entry.entry_type == EntryType::Video {
        let series = EntryTypeSpec::single_parent(
            EntryTypeModality::Specific(EntryType::Video),
            EntryTypeModality::Specific(EntryType::Video),
        );
        let episode = entry.fields.issue.is_some() && entry.fields.volume.is_some()
            && entry.check_with_spec(&series).is_ok();
        let mut directors = entry.affiliates(&PersonRole::Director);
        if episode {
            if directors.len() > 0 {
                let mut writers = entry.affiliates(&PersonRole::Writer);
                let mut tags = repeat_tag(" (Director)", directors.len());
                let mut writer_tags = repeat_tag(" (Writer)", writers.len());
                let ghost d = persons_at(directors@);
                let ghost w = persons_at(writers@);
                let ghost dt = slices(tags@);
                let ghost wt = slices(writer_tags@);
                directors.append(&mut writers);
                tags.append(&mut writer_tags);
                assert(persons_at(directors@) =~= d + w);
                assert(slices(tags@) =~= dt + wt);
                return Credited { persons: directors, tags, ending: "" };
            }
        } else if directors.len() > 0 {
            let ending = if directors.len() == 1 {
                ", Director"
            } else {
                ", Directors"
            };
            let tags = repeat_tag("", directors.len());
            return Credited { persons: directors, tags, ending };
        } else {
            let producers = entry.affiliates(&PersonRole::ExecutiveProducer);
            if producers.len() > 0 {
                let ending = if producers.len() == 1 {
                    ", Executive Prod."
                } else {
                    ", Executive Prods."
                };
                let tags = repeat_tag("", producers.len());
                return Credited { persons: producers, tags, ending };
            }
        }
    }
    let authors = refs_of(&entry.fields.authors);
    if authors.len() > 0 {
        let tags = repeat_tag("", authors.len());
        return Credited { persons: authors, tags, ending: "" };
    }
    let editors = refs_of(&entry.fields.editors);
    if editors.len() > 0 {
        let ending = if editors.len() == 1 {
            ", Ed."
        } else {
            ", Eds."
        };
        let tags = repeat_tag("", editors.len());
        return Credited { persons: editors, tags, ending };
    }
    let r = Credited { persons: Vec::new(), tags: Vec::new(), ending: "" };
    assert(r@.persons =~= Seq::<Person>::empty());
    assert(r@.tags =~= Seq::<Seq<char>>::empty());
    r
}

impl IeeeBibliographyGenerator {
    /// The generator with the settings of the style: title case capitalizes
    /// every word of four characters or more, and lists of six names or more
    /// are cut short.
    pub fn new() -> (r: IeeeBibliographyGenerator)
        ensures
            r.sc_formatter == SentenceCase::standard(),
            r.tc_formatter == (TitleCase {
                always_capitalize_min_len: Some(4usize),
                ..TitleCase::standard()
            }),
            r.et_al_threshold == Some(6u32),
    {
        let mut tc_formatter = TitleCase::default();
        tc_formatter.always_capitalize_min_len = Some(4);
        IeeeBibliographyGenerator {
            sc_formatter: SentenceCase::default(),
            tc_formatter,
            et_al_threshold: Some(6),
        }
    }

    /// Lists names: a comma after every name but the last, "and" before the
    /// last, and, from the threshold on, only the first two and "et al.".
    pub fn and_list(&self, names: Vec<String>) -> (r: String)
        ensures
            r@ == and_list_text(self.et_al_threshold, texts(names@)),
    {
        let ghost all = texts(names@);
        let count = names.len();
        let threshold = match self.et_al_threshold {
            Some(t) => t,
            None => 0,
        };
        let abridge = threshold > 0 && count >= threshold as usize;
        let shown = if abridge && count > 2 {
            2
        } else {
            count
        };
        let mut res = String::new();
        let mut i: usize = 0;
        while i < shown
            invariant
                i <= shown <= count,
                count == names.len(),
                all == texts(names@),
                res@ == list_items(all, i as int),
            decreases shown - i,
        {
            let ghost before = res@;
            res.append(names[i].as_str());
            if count - i >= 2 {
                res.append(", ");
            }
            if count - i == 2 {
                res.append("and ");
            }
            assert(res@ =~= before + list_item(all, i as int));
            i += 1;
        }
        if abridge {
            res.append("et al.");
        }
        assert(res@ =~= and_list_text(self.et_al_threshold, all));
        res
    }

    /// Whether a reference to the entry shows a URL: whether the entry or one
    /// of its ancestors has one.
    pub fn show_url(&self, entry: &Entry) -> (r: bool)
        ensures
            r == first_url(seq![*entry] + ancestors(*entry)) is Some,
    {
        entry.url_any().is_some()
    }

    /// The line that credits the persons behind a work. The names are
    /// those of the persons that [`credited`] finds, typeset by the caller,
    /// in the order of the persons.
    pub fn get_author(&self, entry: &Entry, names: &Vec<String>) -> (r: String)
        ensures
            r@ == author_line(self.et_al_threshold, credits(*entry), texts(names@)),
    {
        proof {
            reveal_strlit("");
            assert(""@ =~= Seq::<char>::empty());
        }
        let found = credited(entry);
        if found.persons.len() == 0 {
            return String::new();
        }
        let ghost given = texts(names@);
        let ghost tags = credits(*entry).tags;
        let mut shown: Vec<String> = Vec::new();
        let mut i: usize = 0;
        while i < names.len()
            invariant
                i <= names.len(),
                given == texts(names@),
                tags == slices(found.tags@),
                shown@.len() == i,
                forall|j: int| 0 <= j < i ==> (#[trigger] shown@[j])@ == given[j] + tag_at(tags, j),
            decreases names.len() - i,
        {
            let tag = if i < found.tags.len() {
                found.tags[i]
            } else {
                ""
            };
            proof {
                reveal_strlit("");
                assert(""@ =~= Seq::<char>::empty());
                if i < found.tags.len() {
                    assert(tags[i as int] == found.tags@[i as int]@);
                }
            }
            assert(tag@ == tag_at(tags, i as int));
            let mut name = names[i].clone();
            name.append(tag);
            shown.push(name);
            i += 1;
        }
        assert(texts(shown@) =~= tagged(given, tags));
        let mut r = self.and_list(shown);
        r.append(found.ending);
        r
    }
}

} // verus!
