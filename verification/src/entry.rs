//! Entries: citable records with a kind, optional fields and an ordered list
//! of parents.

use crate::fields::{Fields, FieldsView};
use crate::kind::EntryType;
use crate::text::opt_ref;
use crate::types::{
    Date, Duration, DurationRange, NumOrStr, NumRange, Person, PersonsWithRoles, QualifiedUrl,
};
use vstd::prelude::*;

verus! {

/// A citable item in a bibliography.
///
/// An entry owns its parents, so the parent relation of any entry is a finite
/// tree: no entry is its own ancestor. Two entries are equal where their
/// kinds, their fields and their parents are.
#[derive(Debug)]
pub struct Entry {
    /// The key of the entry.
    pub key: String,
    /// The kind of the item.
    pub entry_type: EntryType,
    /// The fields of the item.
    pub fields: Fields,
    /// Items in which the item was published or to which it is strongly
    /// associated, in the order in which they were declared.
    pub parents: Vec<Entry>,
}

/// An entry as a mathematical value: texts are sequences of characters and
/// lists are sequences.
pub struct EntryView {
    /// The key of the entry.
    pub key: Seq<char>,
    /// The kind of the item.
    pub entry_type: EntryType,
    /// The fields of the item.
    pub fields: FieldsView,
    /// The parents, in declared order.
    pub parents: Seq<EntryView>,
}

/// The mathematical value of an entry.
pub open spec fn entry_model(e: Entry) -> EntryView
    decreases e,
{
    EntryView {
        key: e.key@,
        entry_type: e.entry_type,
        fields: e.fields@,
        parents: Seq::new(
            e.parents@.len(),
            |i: int|
                if 0 <= i < e.parents@.len() {
                    entry_model(e.parents@[i])
                } else {
                    arbitrary()
                },
        ),
    }
}

impl View for Entry {
    type V = EntryView;

    open spec fn view(&self) -> EntryView {
        entry_model(*self)
    }
}

/// The views of a sequence of entries.
pub open spec fn entries_view(s: Seq<Entry>) -> Seq<EntryView> {
    s.map_values(|e: Entry| e@)
}

/// The parents of an entry's view are the views of its parents.
pub proof fn lemma_parents_view(e: Entry)
    ensures
        e@.parents == entries_view(e.parents@),
{
    assert(e@.parents =~= entries_view(e.parents@));
}

impl EntryView {
    /// An entry of the given key and kind that has no field and no parent.
    pub open spec fn blank(key: Seq<char>, entry_type: EntryType) -> EntryView {
        EntryView { key, entry_type, fields: FieldsView::none(), parents: Seq::empty() }
    }

    /// Whether the entry exposes a non-empty value for the field of the given
    /// name.
    pub open spec fn has(self, name: Seq<char>) -> bool {
        self.fields.has(name)
    }
}

/// Whether two entries are equal: they are of the same kind, have the same
/// fields, and their parents are equal one by one. Keys play no part.
pub open spec fn alike(a: EntryView, b: EntryView) -> bool
    decreases a,
{
    &&& a.entry_type == b.entry_type
    &&& a.fields == b.fields
    &&& a.parents.len() == b.parents.len()
    &&& forall|i: int| 0 <= i < a.parents.len() ==> alike(a.parents[i], b.parents[i])
}

/// Every entry is equal to itself.
pub proof fn lemma_alike_reflexive(a: EntryView)
    ensures
        alike(a, a),
    decreases a,
{
    assert forall|i: int| 0 <= i < a.parents.len() implies alike(a.parents[i], a.parents[i]) by {
        lemma_alike_reflexive(a.parents[i]);
    }
}

/// Equality of entries does not depend on the side.
pub proof fn lemma_alike_symmetric(a: EntryView, b: EntryView)
    requires
        alike(a, b),
    ensures
        alike(b, a),
    decreases a,
{
    assert forall|i: int| 0 <= i < b.parents.len() implies alike(b.parents[i], a.parents[i]) by {
        lemma_alike_symmetric(a.parents[i], b.parents[i]);
    }
}

/// Entries that are equal to the same entry are equal.
pub proof fn lemma_alike_transitive(a: EntryView, b: EntryView, c: EntryView)
    requires
        alike(a, b),
        alike(b, c),
    ensures
        alike(a, c),
    decreases a,
{
    assert forall|i: int| 0 <= i < a.parents.len() implies alike(a.parents[i], c.parents[i]) by {
        lemma_alike_transitive(a.parents[i], b.parents[i], c.parents[i]);
    }
}

/// One more than the greatest depth among the first `n` of `ps`; zero where
/// there is none.
pub open spec fn depth_among(ps: Seq<EntryView>, n: int) -> nat
    decreases ps, n,
{
    if n <= 0 || n > ps.len() {
        0
    } else {
        let first = depth_among(ps, n - 1);
        let last = depth(ps[n - 1]) + 1;
        if last > first {
            last
        } else {
            first
        }
    }
}

/// The number of generations of ancestors of an entry.
pub open spec fn depth(e: EntryView) -> nat
    decreases e,
{
    depth_among(e.parents, e.parents.len() as int)
}

proof fn lemma_depth_among(ps: Seq<EntryView>, n: int, i: int)
    requires
        0 <= i < n <= ps.len(),
    ensures
        depth(ps[i]) < depth_among(ps, n),
    decreases n,
{
    if i < n - 1 {
        lemma_depth_among(ps, n - 1, i);
    }
}

proof fn lemma_alike_depth_among(a: Seq<EntryView>, b: Seq<EntryView>, n: int)
    requires
        0 <= n <= a.len() == b.len(),
        forall|i: int| 0 <= i < a.len() ==> depth(#[trigger] a[i]) == depth(b[i]),
    ensures
        depth_among(a, n) == depth_among(b, n),
    decreases n,
{
    if n > 0 {
        lemma_alike_depth_among(a, b, n - 1);
    }
}

/// Equal entries have as many generations of ancestors.
pub proof fn lemma_alike_depth(a: EntryView, b: EntryView)
    requires
        alike(a, b),
    ensures
        depth(a) == depth(b),
    decreases a,
{
    assert forall|i: int| 0 <= i < a.parents.len() implies depth(#[trigger] a.parents[i]) == depth(
        b.parents[i],
    ) by {
        lemma_alike_depth(a.parents[i], b.parents[i]);
    }
    lemma_alike_depth_among(a.parents, b.parents, a.parents.len() as int);
}

/// No entry is equal to one of its parents.
pub proof fn lemma_never_alike_parent(e: EntryView, i: int)
    requires
        0 <= i < e.parents.len(),
    ensures
        !alike(e, e.parents[i]),
        !alike(e.parents[i], e),
{
    lemma_depth_among(e.parents, e.parents.len() as int, i);
    if alike(e, e.parents[i]) {
        lemma_alike_depth(e, e.parents[i]);
    }
    if alike(e.parents[i], e) {
        lemma_alike_depth(e.parents[i], e);
    }
}

impl PartialEq for Entry {
    fn eq(&self, other: &Entry) -> (r: bool) {
        self.same(other)
    }
}

impl vstd::std_specs::cmp::PartialEqSpecImpl for Entry {
    open spec fn obeys_eq_spec() -> bool {
        true
    }

    open spec fn eq_spec(&self, other: &Entry) -> bool {
        alike(self@, other@)
    }
}

impl Eq for Entry {

}

impl Clone for Entry {
    fn clone(&self) -> (r: Self)
        ensures
            r@ == self@,
        decreases *self,
    {
        let mut parents: Vec<Entry> = Vec::new();
        let mut i: usize = 0;
        while i < self.parents.len()
            invariant
                i <= self.parents.len(),
                parents@.len() == i,
                forall|j: int| 0 <= j < i ==> parents@[j]@ == self.parents@[j]@,
            decreases self.parents.len() - i,
        {
            let p = self.parents[i].clone();
            parents.push(p);
            i += 1;
        }
        let r = Entry {
            key: self.key.clone(),
            entry_type: self.entry_type,
            fields: self.fields.clone(),
            parents,
        };
        assert(r@.parents =~= self@.parents);
        r
    }
}

impl Entry {
    /// Constructs an entry of the given key and kind that has no field and no
    /// parent.
    pub fn new(key: &str, entry_type: EntryType) -> (r: Entry)
        ensures
            r@ == EntryView::blank(key@, entry_type),
    {
        let r = Entry { key: key.to_owned(), entry_type, fields: Fields::none(), parents: Vec::new() };
        assert(r@.parents =~= Seq::<EntryView>::empty());
        r
    }

    /// Whether the entry is equal to another: of the same kind, with the
    /// same fields and with equal parents.
    pub fn same(&self, other: &Entry) -> (r: bool)
        ensures
            r == alike(self@, other@),
        decreases self,
    {
        if self.entry_type != other.entry_type || !self.fields.same(&other.fields) {
            return false;
        }
        if self.parents.len() != other.parents.len() {
            return false;
        }
        let mut i: usize = 0;
        while i < self.parents.len()
            invariant
                i <= self.parents.len(),
                self.parents.len() == other.parents.len(),
                self@.entry_type == other@.entry_type,
                self@.fields == other@.fields,
                forall|j: int| 0 <= j < i ==> alike(self@.parents[j], other@.parents[j]),
            decreases self.parents.len() - i,
        {
            if !self.parents[i].same(&other.parents[i]) {
                assert(!alike(self@.parents[i as int], other@.parents[i as int]));
                return false;
            }
            i += 1;
        }
        true
    }

    /// The key of the entry.
    pub fn key(&self) -> (r: &str)
        ensures
            r@ == self@.key,
    {
        self.key.as_str()
    }

    /// The kind of the entry.
    pub fn entry_type(&self) -> (r: &EntryType)
        ensures
            *r == self@.entry_type,
    {
        &self.entry_type
    }

    /// The parents of the entry, in declared order.
    pub fn parents(&self) -> (r: &Vec<Entry>)
        ensures
            *r == self.parents,
            entries_view(r@) == self@.parents,
    {
        proof {
            lemma_parents_view(*self);
        }
        &self.parents
    }

    /// Replaces the parents of the entry.
    pub fn set_parents(&mut self, parents: Vec<Entry>)
        ensures
            *final(self) == (Entry { parents, ..*old(self) }),
    {
        self.parents = parents;
    }

    /// Whether the entry exposes a non-empty value for the field of the given
    /// name.
    pub fn has(&self, name: &str) -> (r: bool)
        ensures
            r == self@.has(name@),
    {
        self.fields.has(name)
    }

    /// Title of the item.
    pub fn title(&self) -> (r: Option<&String>)
        ensures
            r == opt_ref(&self.fields.title),
    {
        self.fields.title.as_ref()
    }

    /// Sets the `title` field.
    pub fn set_title(&mut self, title: String)
        ensures
            final(self).fields == (Fields { title: Some(title), ..old(self).fields }),
            final(self).key == old(self).key,
            final(self).entry_type == old(self).entry_type,
            final(self).parents == old(self).parents,
    {
        self.fields.title = Some(title);
    }

    /// Persons primarily responsible for creating the item.
    pub fn authors(&self) -> (r: Option<&Vec<Person>>)
        ensures
            r == opt_ref(&self.fields.authors),
    {
        self.fields.authors.as_ref()
    }

    /// Sets the `author` field.
    pub fn set_authors(&mut self, authors: Vec<Person>)
        ensures
            final(self).fields == (Fields { authors: Some(authors), ..old(self).fields }),
            final(self).key == old(self).key,
            final(self).entry_type == old(self).entry_type,
            final(self).parents == old(self).parents,
    {
        self.fields.authors = Some(authors);
    }

    /// Date at which the item was published.
    pub fn date(&self) -> (r: Option<&Date>)
        ensures
            r == opt_ref(&self.fields.date),
    {
        self.fields.date.as_ref()
    }

    /// Sets the `date` field.
    pub fn set_date(&mut self, date: Date)
        ensures
            final(self).fields == (Fields { date: Some(date), ..old(self).fields }),
            final(self).key == old(self).key,
            final(self).entry_type == old(self).entry_type,
            final(self).parents == old(self).parents,
    {
        self.fields.date = Some(date);
    }

    /// Persons responsible for selecting and revising the content of the item.
    pub fn editors(&self) -> (r: Option<&Vec<Person>>)
        ensures
            r == opt_ref(&self.fields.editors),
    {
        self.fields.editors.as_ref()
    }

    /// Sets the `editor` field.
    pub fn set_editors(&mut self, editors: Vec<Person>)
        ensures
            final(self).fields == (Fields { editors: Some(editors), ..old(self).fields }),
            final(self).key == old(self).key,
            final(self).entry_type == old(self).entry_type,
            final(self).parents == old(self).parents,
    {
        self.fields.editors = Some(editors);
    }

    /// Persons involved in the production of the item that are not authors or editors.
    pub fn affiliated(&self) -> (r: Option<&Vec<PersonsWithRoles>>)
        ensures
            r == opt_ref(&self.fields.affiliated),
    {
        self.fields.affiliated.as_ref()
    }

    /// Sets the `affiliated` field.
    pub fn set_affiliated(&mut self, affiliated: Vec<PersonsWithRoles>)
        ensures
            final(self).fields == (Fields { affiliated: Some(affiliated), ..old(self).fields }),
            final(self).key == old(self).key,
            final(self).entry_type == old(self).entry_type,
            final(self).parents == old(self).parents,
    {
        self.fields.affiliated = Some(affiliated);
    }

    /// Publisher of the item.
    pub fn publisher(&self) -> (r: Option<&String>)
        ensures
            r == opt_ref(&self.fields.publisher),
    {
        self.fields.publisher.as_ref()
    }

    /// Sets the `publisher` field.
    pub fn set_publisher(&mut self, publisher: String)
        ensures
            final(self).fields == (Fields { publisher: Some(publisher), ..old(self).fields }),
            final(self).key == old(self).key,
            final(self).entry_type == old(self).entry_type,
            final(self).parents == old(self).parents,
    {
        self.fields.publisher = Some(publisher);
    }

    /// Physical location at which the item was published or created.
    pub fn location(&self) -> (r: Option<&String>)
        ensures
            r == opt_ref(&self.fields.location),
    {
        self.fields.location.as_ref()
    }

    /// Sets the `location` field.
    pub fn set_location(&mut self, location: String)
        ensures
            final(self).fields == (Fields { location: Some(location), ..old(self).fields }),
            final(self).key == old(self).key,
            final(self).entry_type == old(self).entry_type,
            final(self).parents == old(self).parents,
    {
        self.fields.location = Some(location);
    }

    /// Organization at or for which the item was created.
    pub fn organization(&self) -> (r: Option<&String>)
        ensures
            r == opt_ref(&self.fields.organization),
    {
        self.fields.organization.as_ref()
    }

    /// Sets the `organization` field.
    pub fn set_organization(&mut self, organization: String)
        ensures
            final(self).fields == (Fields { organization: Some(organization), ..old(self).fields }),
            final(self).key == old(self).key,
            final(self).entry_type == old(self).entry_type,
            final(self).parents == old(self).parents,
    {
        self.fields.organization = Some(organization);
    }

    /// For an item whose parent has multiple issues, the position in the issue sequence.
    pub fn issue(&self) -> (r: Option<&NumOrStr>)
        ensures
            r == opt_ref(&self.fields.issue),
    {
        self.fields.issue.as_ref()
    }

    /// Sets the `issue` field.
    pub fn set_issue(&mut self, issue: NumOrStr)
        ensures
            final(self).fields == (Fields { issue: Some(issue), ..old(self).fields }),
            final(self).key == old(self).key,
            final(self).entry_type == old(self).entry_type,
            final(self).parents == old(self).parents,
    {
        self.fields.issue = Some(issue);
    }

    /// For an item whose parent has multiple volumes, parts or seasons, the ones this item is.
    pub fn volume(&self) -> (r: Option<&NumRange>)
        ensures
            r == opt_ref(&self.fields.volume),
    {
        self.fields.volume.as_ref()
    }

    /// Sets the `volume` field.
    pub fn set_volume(&mut self, volume: NumRange)
        ensures
            final(self).fields == (Fields { volume: Some(volume), ..old(self).fields }),
            final(self).key == old(self).key,
            final(self).entry_type == old(self).entry_type,
            final(self).parents == old(self).parents,
    {
        self.fields.volume = Some(volume);
    }

    /// Total number of volumes, parts or seasons this item consists of.
    pub fn volume_total(&self) -> (r: Option<&i64>)
        ensures
            r == opt_ref(&self.fields.volume_total),
    {
        self.fields.volume_total.as_ref()
    }

    /// Sets the `volume-total` field.
    pub fn set_volume_total(&mut self, volume_total: i64)
        ensures
            final(self).fields == (Fields { volume_total: Some(volume_total), ..old(self).fields }),
            final(self).key == old(self).key,
            final(self).entry_type == old(self).entry_type,
            final(self).parents == old(self).parents,
    {
        self.fields.volume_total = Some(volume_total);
    }

    /// Published version of an item.
    pub fn edition(&self) -> (r: Option<&NumOrStr>)
        ensures
            r == opt_ref(&self.fields.edition),
    {
        self.fields.edition.as_ref()
    }

    /// Sets the `edition` field.
    pub fn set_edition(&mut self, edition: NumOrStr)
        ensures
            final(self).fields == (Fields { edition: Some(edition), ..old(self).fields }),
            final(self).key == old(self).key,
            final(self).entry_type == old(self).entry_type,
            final(self).parents == old(self).parents,
    {
        self.fields.edition = Some(edition);
    }

    /// The range of pages within the parent this item occupies.
    pub fn page_range(&self) -> (r: Option<&NumRange>)
        ensures
            r == opt_ref(&self.fields.page_range),
    {
        self.fields.page_range.as_ref()
    }

    /// Sets the `page-range` field.
    pub fn set_page_range(&mut self, page_range: NumRange)
        ensures
            final(self).fields == (Fields { page_range: Some(page_range), ..old(self).fields }),
            final(self).key == old(self).key,
            final(self).entry_type == old(self).entry_type,
            final(self).parents == old(self).parents,
    {
        self.fields.page_range = Some(page_range);
    }

    /// The total number of pages the item has.
    pub fn page_total(&self) -> (r: Option<&i64>)
        ensures
            r == opt_ref(&self.fields.page_total),
    {
        self.fields.page_total.as_ref()
    }

    /// Sets the `page-total` field.
    pub fn set_page_total(&mut self, page_total: i64)
        ensures
            final(self).fields == (Fields { page_total: Some(page_total), ..old(self).fields }),
            final(self).key == old(self).key,
            final(self).entry_type == old(self).entry_type,
            final(self).parents == old(self).parents,
    {
        self.fields.page_total = Some(page_total);
    }

    /// The time range within the parent this item starts and ends at.
    pub fn time_range(&self) -> (r: Option<&DurationRange>)
        ensures
            r == opt_ref(&self.fields.time_range),
    {
        self.fields.time_range.as_ref()
    }

    /// Sets the `time-range` field.
    pub fn set_time_range(&mut self, time_range: DurationRange)
        ensures
            final(self).fields == (Fields { time_range: Some(time_range), ..old(self).fields }),
            final(self).key == old(self).key,
            final(self).entry_type == old(self).entry_type,
            final(self).parents == old(self).parents,
    {
        self.fields.time_range = Some(time_range);
    }

    /// The total runtime of the item.
    pub fn runtime(&self) -> (r: Option<&Duration>)
        ensures
            r == opt_ref(&self.fields.runtime),
    {
        self.fields.runtime.as_ref()
    }

    /// Sets the `runtime` field.
    pub fn set_runtime(&mut self, runtime: Duration)
        ensures
            final(self).fields == (Fields { runtime: Some(runtime), ..old(self).fields }),
            final(self).key == old(self).key,
            final(self).entry_type == old(self).entry_type,
            final(self).parents == old(self).parents,
    {
        self.fields.runtime = Some(runtime);
    }

    /// Canonical public URL of the item, possibly with the date of access.
    pub fn url(&self) -> (r: Option<&QualifiedUrl>)
        ensures
            r == opt_ref(&self.fields.url),
    {
        self.fields.url.as_ref()
    }

    /// Sets the `url` field.
    pub fn set_url(&mut self, url: QualifiedUrl)
        ensures
            final(self).fields == (Fields { url: Some(url), ..old(self).fields }),
            final(self).key == old(self).key,
            final(self).entry_type == old(self).entry_type,
            final(self).parents == old(self).parents,
    {
        self.fields.url = Some(url);
    }

    /// The Digital Object Identifier of the item.
    pub fn doi(&self) -> (r: Option<&String>)
        ensures
            r == opt_ref(&self.fields.doi),
    {
        self.fields.doi.as_ref()
    }

    /// Sets the `doi` field.
    pub fn set_doi(&mut self, doi: String)
        ensures
            final(self).fields == (Fields { doi: Some(doi), ..old(self).fields }),
            final(self).key == old(self).key,
            final(self).entry_type == old(self).entry_type,
            final(self).parents == old(self).parents,
    {
        self.fields.doi = Some(doi);
    }

    /// Any serial number or version describing the item that fits none of the other identifying fields.
    pub fn serial_number(&self) -> (r: Option<&String>)
        ensures
            r == opt_ref(&self.fields.serial_number),
    {
        self.fields.serial_number.as_ref()
    }

    /// Sets the `serial-number` field.
    pub fn set_serial_number(&mut self, serial_number: String)
        ensures
            final(self).fields == (Fields { serial_number: Some(serial_number), ..old(self).fields }),
            final(self).key == old(self).key,
            final(self).entry_type == old(self).entry_type,
            final(self).parents == old(self).parents,
    {
        self.fields.serial_number = Some(serial_number);
    }

    /// International Standard Book Number.
    pub fn isbn(&self) -> (r: Option<&String>)
        ensures
            r == opt_ref(&self.fields.isbn),
    {
        self.fields.isbn.as_ref()
    }

    /// Sets the `isbn` field.
    pub fn set_isbn(&mut self, isbn: String)
        ensures
            final(self).fields == (Fields { isbn: Some(isbn), ..old(self).fields }),
            final(self).key == old(self).key,
            final(self).entry_type == old(self).entry_type,
            final(self).parents == old(self).parents,
    {
        self.fields.isbn = Some(isbn);
    }

    /// International Standard Serial Number.
    pub fn issn(&self) -> (r: Option<&String>)
        ensures
            r == opt_ref(&self.fields.issn),
    {
        self.fields.issn.as_ref()
    }

    /// Sets the `issn` field.
    pub fn set_issn(&mut self, issn: String)
        ensures
            final(self).fields == (Fields { issn: Some(issn), ..old(self).fields }),
            final(self).key == old(self).key,
            final(self).entry_type == old(self).entry_type,
            final(self).parents == old(self).parents,
    {
        self.fields.issn = Some(issn);
    }

    /// The language of the item, as a language tag.
    pub fn language(&self) -> (r: Option<&String>)
        ensures
            r == opt_ref(&self.fields.language),
    {
        self.fields.language.as_ref()
    }

    /// Sets the `language` field.
    pub fn set_language(&mut self, language: String)
        ensures
            final(self).fields == (Fields { language: Some(language), ..old(self).fields }),
            final(self).key == old(self).key,
            final(self).entry_type == old(self).entry_type,
            final(self).parents == old(self).parents,
    {
        self.fields.language = Some(language);
    }

    /// Name of the institution or collection where the item is kept.
    pub fn archive(&self) -> (r: Option<&String>)
        ensures
            r == opt_ref(&self.fields.archive),
    {
        self.fields.archive.as_ref()
    }

    /// Sets the `archive` field.
    pub fn set_archive(&mut self, archive: String)
        ensures
            final(self).fields == (Fields { archive: Some(archive), ..old(self).fields }),
            final(self).key == old(self).key,
            final(self).entry_type == old(self).entry_type,
            final(self).parents == old(self).parents,
    {
        self.fields.archive = Some(archive);
    }

    /// Physical location of the institution or collection where the item is kept.
    pub fn archive_location(&self) -> (r: Option<&String>)
        ensures
            r == opt_ref(&self.fields.archive_location),
    {
        self.fields.archive_location.as_ref()
    }

    /// Sets the `archive-location` field.
    pub fn set_archive_location(&mut self, archive_location: String)
        ensures
            final(self).fields == (Fields { archive_location: Some(archive_location), ..old(self).fields }),
            final(self).key == old(self).key,
            final(self).entry_type == old(self).entry_type,
            final(self).parents == old(self).parents,
    {
        self.fields.archive_location = Some(archive_location);
    }

    /// The call number of the item in the institution or collection.
    pub fn call_number(&self) -> (r: Option<&String>)
        ensures
            r == opt_ref(&self.fields.call_number),
    {
        self.fields.call_number.as_ref()
    }

    /// Sets the `call-number` field.
    pub fn set_call_number(&mut self, call_number: String)
        ensures
            final(self).fields == (Fields { call_number: Some(call_number), ..old(self).fields }),
            final(self).key == old(self).key,
            final(self).entry_type == old(self).entry_type,
            final(self).parents == old(self).parents,
    {
        self.fields.call_number = Some(call_number);
    }

    /// Additional description to be appended in the bibliographic entry.
    pub fn note(&self) -> (r: Option<&String>)
        ensures
            r == opt_ref(&self.fields.note),
    {
        self.fields.note.as_ref()
    }

    /// Sets the `note` field.
    pub fn set_note(&mut self, note: String)
        ensures
            final(self).fields == (Fields { note: Some(note), ..old(self).fields }),
            final(self).key == old(self).key,
            final(self).entry_type == old(self).entry_type,
            final(self).parents == old(self).parents,
    {
        self.fields.note = Some(note);
    }
}

} // verus!
