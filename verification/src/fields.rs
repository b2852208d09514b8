//! The optional fields of an entry.

use crate::text::{chars_of, holds};
use crate::types::{
    clone_groups, clone_opt_text, clone_persons, groups_view, opt_text, persons_view,
    same_groups, same_opt_date, same_opt_text, same_persons, Date, Duration, DurationRange,
    NumOrStr, NumOrStrView, NumRange, Person, PersonView, PersonsWithRoles, PersonsWithRolesView,
    QualifiedUrl, QualifiedUrlView,
};
use vstd::prelude::*;

verus! {

/// The fields that an entry may have, each present or absent.
#[derive(Debug, PartialEq, Eq)]
pub struct Fields {
    /// Title of the item.
    pub title: Option<String>,
    /// Persons primarily responsible for creating the item.
    pub authors: Option<Vec<Person>>,
    /// Date at which the item was published.
    pub date: Option<Date>,
    /// Persons responsible for selecting and revising the content of the item.
    pub editors: Option<Vec<Person>>,
    /// Persons involved in the production of the item that are not authors or editors.
    pub affiliated: Option<Vec<PersonsWithRoles>>,
    /// Publisher of the item.
    pub publisher: Option<String>,
    /// Physical location at which the item was published or created.
    pub location: Option<String>,
    /// Organization at or for which the item was created.
    pub organization: Option<String>,
    /// For an item whose parent has multiple issues, the position in the issue sequence.
    pub issue: Option<NumOrStr>,
    /// For an item whose parent has multiple volumes, parts or seasons, the ones this item is.
    pub volume: Option<NumRange>,
    /// Total number of volumes, parts or seasons this item consists of.
    pub volume_total: Option<i64>,
    /// Published version of an item.
    pub edition: Option<NumOrStr>,
    /// The range of pages within the parent this item occupies.
    pub page_range: Option<NumRange>,
    /// The total number of pages the item has.
    pub page_total: Option<i64>,
    /// The time range within the parent this item starts and ends at.
    pub time_range: Option<DurationRange>,
    /// The total runtime of the item.
    pub runtime: Option<Duration>,
    /// Canonical public URL of the item, possibly with the date of access.
    pub url: Option<QualifiedUrl>,
    /// The Digital Object Identifier of the item.
    pub doi: Option<String>,
    /// Any serial number or version describing the item that fits none of the other identifying fields.
    pub serial_number: Option<String>,
    /// International Standard Book Number.
    pub isbn: Option<String>,
    /// International Standard Serial Number.
    pub issn: Option<String>,
    /// The language of the item, as a language tag.
    pub language: Option<String>,
    /// Name of the institution or collection where the item is kept.
    pub archive: Option<String>,
    /// Physical location of the institution or collection where the item is kept.
    pub archive_location: Option<String>,
    /// The call number of the item in the institution or collection.
    pub call_number: Option<String>,
    /// Additional description to be appended in the bibliographic entry.
    pub note: Option<String>,
}

/// The fields of an entry as mathematical values.
pub struct FieldsView {
    /// Title of the item.
    pub title: Option<Seq<char>>,
    /// Persons primarily responsible for creating the item.
    pub authors: Option<Seq<PersonView>>,
    /// Date at which the item was published.
    pub date: Option<Date>,
    /// Persons responsible for selecting and revising the content of the item.
    pub editors: Option<Seq<PersonView>>,
    /// Persons involved in the production of the item that are not authors or editors.
    pub affiliated: Option<Seq<PersonsWithRolesView>>,
    /// Publisher of the item.
    pub publisher: Option<Seq<char>>,
    /// Physical location at which the item was published or created.
    pub location: Option<Seq<char>>,
    /// Organization at or for which the item was created.
    pub organization: Option<Seq<char>>,
    /// For an item whose parent has multiple issues, the position in the issue sequence.
    pub issue: Option<NumOrStrView>,
    /// For an item whose parent has multiple volumes, parts or seasons, the ones this item is.
    pub volume: Option<NumRange>,
    /// Total number of volumes, parts or seasons this item consists of.
    pub volume_total: Option<i64>,
    /// Published version of an item.
    pub edition: Option<NumOrStrView>,
    /// The range of pages within the parent this item occupies.
    pub page_range: Option<NumRange>,
    /// The total number of pages the item has.
    pub page_total: Option<i64>,
    /// The time range within the parent this item starts and ends at.
    pub time_range: Option<DurationRange>,
    /// The total runtime of the item.
    pub runtime: Option<Duration>,
    /// Canonical public URL of the item, possibly with the date of access.
    pub url: Option<QualifiedUrlView>,
    /// The Digital Object Identifier of the item.
    pub doi: Option<Seq<char>>,
    /// Any serial number or version describing the item that fits none of the other identifying fields.
    pub serial_number: Option<Seq<char>>,
    /// International Standard Book Number.
    pub isbn: Option<Seq<char>>,
    /// International Standard Serial Number.
    pub issn: Option<Seq<char>>,
    /// The language of the item, as a language tag.
    pub language: Option<Seq<char>>,
    /// Name of the institution or collection where the item is kept.
    pub archive: Option<Seq<char>>,
    /// Physical location of the institution or collection where the item is kept.
    pub archive_location: Option<Seq<char>>,
    /// The call number of the item in the institution or collection.
    pub call_number: Option<Seq<char>>,
    /// Additional description to be appended in the bibliographic entry.
    pub note: Option<Seq<char>>,
}

/// The views of an optional list of persons.
pub open spec fn opt_persons(o: Option<Vec<Person>>) -> Option<Seq<PersonView>> {
    match o {
        Some(v) => Some(persons_view(v@)),
        None => None,
    }
}

/// The views of an optional list of role groups.
pub open spec fn opt_groups(o: Option<Vec<PersonsWithRoles>>) -> Option<
    Seq<PersonsWithRolesView>,
> {
    match o {
        Some(v) => Some(groups_view(v@)),
        None => None,
    }
}

/// The view of an optional value.
pub open spec fn opt_view<T: View>(o: Option<T>) -> Option<T::V> {
    match o {
        Some(t) => Some(t@),
        None => None,
    }
}

impl View for Fields {
    type V = FieldsView;

    open spec fn view(&self) -> FieldsView {
        FieldsView {
            title: opt_text(self.title),
            authors: opt_persons(self.authors),
            date: self.date,
            editors: opt_persons(self.editors),
            affiliated: opt_groups(self.affiliated),
            publisher: opt_text(self.publisher),
            location: opt_text(self.location),
            organization: opt_text(self.organization),
            issue: opt_view(self.issue),
            volume: self.volume,
            volume_total: self.volume_total,
            edition: opt_view(self.edition),
            page_range: self.page_range,
            page_total: self.page_total,
            time_range: self.time_range,
            runtime: self.runtime,
            url: opt_view(self.url),
            doi: opt_text(self.doi),
            serial_number: opt_text(self.serial_number),
            isbn: opt_text(self.isbn),
            issn: opt_text(self.issn),
            language: opt_text(self.language),
            archive: opt_text(self.archive),
            archive_location: opt_text(self.archive_location),
            call_number: opt_text(self.call_number),
            note: opt_text(self.note),
        }
    }
}

impl FieldsView {
    /// No field at all.
    pub open spec fn none() -> FieldsView {
        FieldsView {
            title: None,
            authors: None,
            date: None,
            editors: None,
            affiliated: None,
            publisher: None,
            location: None,
            organization: None,
            issue: None,
            volume: None,
            volume_total: None,
            edition: None,
            page_range: None,
            page_total: None,
            time_range: None,
            runtime: None,
            url: None,
            doi: None,
            serial_number: None,
            isbn: None,
            issn: None,
            language: None,
            archive: None,
            archive_location: None,
            call_number: None,
            note: None,
        }
    }

    /// Whether a non-empty value is present for the field of the given name.
    /// Names are the lower-case, hyphenated field names; any other text names
    /// no field.
    pub open spec fn has(self, name: Seq<char>) -> bool {
        if name == "title"@ {
            self.title is Some && self.title->0.len() > 0
        } else if name == "author"@ {
            self.authors is Some && self.authors->0.len() > 0
        } else if name == "date"@ {
            self.date is Some
        } else if name == "editor"@ {
            self.editors is Some && self.editors->0.len() > 0
        } else if name == "affiliated"@ {
            self.affiliated is Some && self.affiliated->0.len() > 0
        } else if name == "publisher"@ {
            self.publisher is Some && self.publisher->0.len() > 0
        } else if name == "location"@ {
            self.location is Some && self.location->0.len() > 0
        } else if name == "organization"@ {
            self.organization is Some && self.organization->0.len() > 0
        } else if name == "issue"@ {
            self.issue is Some
        } else if name == "volume"@ {
            self.volume is Some
        } else if name == "volume-total"@ {
            self.volume_total is Some
        } else if name == "edition"@ {
            self.edition is Some
        } else if name == "page-range"@ {
            self.page_range is Some
        } else if name == "page-total"@ {
            self.page_total is Some
        } else if name == "time-range"@ {
            self.time_range is Some
        } else if name == "runtime"@ {
            self.runtime is Some
        } else if name == "url"@ {
            self.url is Some
        } else if name == "doi"@ {
            self.doi is Some && self.doi->0.len() > 0
        } else if name == "serial-number"@ {
            self.serial_number is Some && self.serial_number->0.len() > 0
        } else if name == "isbn"@ {
            self.isbn is Some && self.isbn->0.len() > 0
        } else if name == "issn"@ {
            self.issn is Some && self.issn->0.len() > 0
        } else if name == "language"@ {
            self.language is Some && self.language->0.len() > 0
        } else if name == "archive"@ {
            self.archive is Some && self.archive->0.len() > 0
        } else if name == "archive-location"@ {
            self.archive_location is Some && self.archive_location->0.len() > 0
        } else if name == "call-number"@ {
            self.call_number is Some && self.call_number->0.len() > 0
        } else if name == "note"@ {
            self.note is Some && self.note->0.len() > 0
        } else {
            false
        }
    }
}

fn clone_opt_persons(o: &Option<Vec<Person>>) -> (r: Option<Vec<Person>>)
    ensures
        opt_persons(r) == opt_persons(*o),
{
    match o {
        Some(v) => Some(clone_persons(v)),
        None => None,
    }
}

fn clone_opt_groups(o: &Option<Vec<PersonsWithRoles>>) -> (r: Option<Vec<PersonsWithRoles>>)
    ensures
        opt_groups(r) == opt_groups(*o),
{
    match o {
        Some(v) => Some(clone_groups(v)),
        None => None,
    }
}

fn clone_opt_num(o: &Option<NumOrStr>) -> (r: Option<NumOrStr>)
    ensures
        opt_view(r) == opt_view(*o),
{
    match o {
        Some(v) => Some(v.clone()),
        None => None,
    }
}

fn clone_opt_url(o: &Option<QualifiedUrl>) -> (r: Option<QualifiedUrl>)
    ensures
        opt_view(r) == opt_view(*o),
{
    match o {
        Some(v) => Some(v.clone()),
        None => None,
    }
}

impl Clone for Fields {
    fn clone(&self) -> (r: Self)
        ensures
            r@ == self@,
    {
        Fields {
            title: clone_opt_text(&self.title),
            authors: clone_opt_persons(&self.authors),
            date: self.date,
            editors: clone_opt_persons(&self.editors),
            affiliated: clone_opt_groups(&self.affiliated),
            publisher: clone_opt_text(&self.publisher),
            location: clone_opt_text(&self.location),
            organization: clone_opt_text(&self.organization),
            issue: clone_opt_num(&self.issue),
            volume: self.volume,
            volume_total: self.volume_total,
            edition: clone_opt_num(&self.edition),
            page_range: self.page_range,
            page_total: self.page_total,
            time_range: self.time_range,
            runtime: self.runtime,
            url: clone_opt_url(&self.url),
            doi: clone_opt_text(&self.doi),
            serial_number: clone_opt_text(&self.serial_number),
            isbn: clone_opt_text(&self.isbn),
            issn: clone_opt_text(&self.issn),
            language: clone_opt_text(&self.language),
            archive: clone_opt_text(&self.archive),
            archive_location: clone_opt_text(&self.archive_location),
            call_number: clone_opt_text(&self.call_number),
            note: clone_opt_text(&self.note),
        }
    }
}

impl Fields {
    /// No field at all.
    pub fn none() -> (r: Fields)
        ensures
            r@ == FieldsView::none(),
    {
        Fields {
            title: None,
            authors: None,
            date: None,
            editors: None,
            affiliated: None,
            publisher: None,
            location: None,
            organization: None,
            issue: None,
            volume: None,
            volume_total: None,
            edition: None,
            page_range: None,
            page_total: None,
            time_range: None,
            runtime: None,
            url: None,
            doi: None,
            serial_number: None,
            isbn: None,
            issn: None,
            language: None,
            archive: None,
            archive_location: None,
            call_number: None,
            note: None,
        }
    }

    /// Whether a non-empty value is present for the field of the given name.
    pub fn has(&self, name: &str) -> (r: bool)
        ensures
            r == self@.has(name@),
    {
        let n = chars_of(name);
        if holds(&n, "title") {
            match &self.title {
                Some(t) => t.as_str().unicode_len() > 0,
                None => false,
            }
        } else if holds(&n, "author") {
            match &self.authors {
                Some(v) => v.len() > 0,
                None => false,
            }
        } else if holds(&n, "date") {
            self.date.is_some()
        } else if holds(&n, "editor") {
            match &self.editors {
                Some(v) => v.len() > 0,
                None => false,
            }
        } else if holds(&n, "affiliated") {
            match &self.affiliated {
                Some(v) => v.len() > 0,
                None => false,
            }
        } else if holds(&n, "publisher") {
            match &self.publisher {
                Some(t) => t.as_str().unicode_len() > 0,
                None => false,
            }
        } else if holds(&n, "location") {
            match &self.location {
                Some(t) => t.as_str().unicode_len() > 0,
                None => false,
            }
        } else if holds(&n, "organization") {
            match &self.organization {
                Some(t) => t.as_str().unicode_len() > 0,
                None => false,
            }
        } else if holds(&n, "issue") {
            self.issue.is_some()
        } else if holds(&n, "volume") {
            self.volume.is_some()
        } else if holds(&n, "volume-total") {
            self.volume_total.is_some()
        } else if holds(&n, "edition") {
            self.edition.is_some()
        } else if holds(&n, "page-range") {
            self.page_range.is_some()
        } else if holds(&n, "page-total") {
            self.page_total.is_some()
        } else if holds(&n, "time-range") {
            self.time_range.is_some()
        } else if holds(&n, "runtime") {
            self.runtime.is_some()
        } else if holds(&n, "url") {
            self.url.is_some()
        } else if holds(&n, "doi") {
            match &self.doi {
                Some(t) => t.as_str().unicode_len() > 0,
                None => false,
            }
        } else if holds(&n, "serial-number") {
            match &self.serial_number {
                Some(t) => t.as_str().unicode_len() > 0,
                None => false,
            }
        } else if holds(&n, "isbn") {
            match &self.isbn {
                Some(t) => t.as_str().unicode_len() > 0,
                None => false,
            }
        } else if holds(&n, "issn") {
            match &self.issn {
                Some(t) => t.as_str().unicode_len() > 0,
                None => false,
            }
        } else if holds(&n, "language") {
            match &self.language {
                Some(t) => t.as_str().unicode_len() > 0,
                None => false,
            }
        } else if holds(&n, "archive") {
            match &self.archive {
                Some(t) => t.as_str().unicode_len() > 0,
                None => false,
            }
        } else if holds(&n, "archive-location") {
            match &self.archive_location {
                Some(t) => t.as_str().unicode_len() > 0,
                None => false,
            }
        } else if holds(&n, "call-number") {
            match &self.call_number {
                Some(t) => t.as_str().unicode_len() > 0,
                None => false,
            }
        } else if holds(&n, "note") {
            match &self.note {
                Some(t) => t.as_str().unicode_len() > 0,
                None => false,
            }
        } else {
            false
        }
    }
}

fn same_opt_persons(a: &Option<Vec<Person>>, b: &Option<Vec<Person>>) -> (r: bool)
    ensures
        r == (opt_persons(*a) == opt_persons(*b)),
{
    match (a, b) {
        (Some(x), Some(y)) => same_persons(x, y),
        (None, None) => true,
        _ => false,
    }
}

fn same_opt_groups(a: &Option<Vec<PersonsWithRoles>>, b: &Option<Vec<PersonsWithRoles>>) -> (r:
    bool)
    ensures
        r == (opt_groups(*a) == opt_groups(*b)),
{
    match (a, b) {
        (Some(x), Some(y)) => same_groups(x, y),
        (None, None) => true,
        _ => false,
    }
}

fn same_opt_num(a: &Option<NumOrStr>, b: &Option<NumOrStr>) -> (r: bool)
    ensures
        r == (opt_view(*a) == opt_view(*b)),
{
    match (a, b) {
        (Some(x), Some(y)) => x.same(y),
        (None, None) => true,
        _ => false,
    }
}

fn same_opt_url(a: &Option<QualifiedUrl>, b: &Option<QualifiedUrl>) -> (r: bool)
    ensures
        r == (opt_view(*a) == opt_view(*b)),
{
    match (a, b) {
        (Some(x), Some(y)) => x.same(y),
        (None, None) => true,
        _ => false,
    }
}

fn same_opt_int(a: &Option<i64>, b: &Option<i64>) -> (r: bool)
    ensures
        r == (*a == *b),
{
    match (a, b) {
        (Some(x), Some(y)) => *x == *y,
        (None, None) => true,
        _ => false,
    }
}

fn same_opt_range(a: &Option<NumRange>, b: &Option<NumRange>) -> (r: bool)
    ensures
        r == (*a == *b),
{
    match (a, b) {
        (Some(x), Some(y)) => x.same(y),
        (None, None) => true,
        _ => false,
    }
}

fn same_opt_span(a: &Option<Duration>, b: &Option<Duration>) -> (r: bool)
    ensures
        r == (*a == *b),
{
    match (a, b) {
        (Some(x), Some(y)) => x.same(y),
        (None, None) => true,
        _ => false,
    }
}

fn same_opt_stretch(a: &Option<DurationRange>, b: &Option<DurationRange>) -> (r: bool)
    ensures
        r == (*a == *b),
{
    match (a, b) {
        (Some(x), Some(y)) => x.same(y),
        (None, None) => true,
        _ => false,
    }
}

impl Fields {
    /// Whether all fields are the same.
    pub fn same(&self, other: &Fields) -> (r: bool)
        ensures
            r == (self@ == other@),
    {
        if !same_opt_text(&self.title, &other.title) {
            return false;
        }
        if !same_opt_persons(&self.authors, &other.authors) {
            return false;
        }
        if !same_opt_date(&self.date, &other.date) {
            return false;
        }
        if !same_opt_persons(&self.editors, &other.editors) {
            return false;
        }
        if !same_opt_groups(&self.affiliated, &other.affiliated) {
            return false;
        }
        if !same_opt_text(&self.publisher, &other.publisher) {
            return false;
        }
        if !same_opt_text(&self.location, &other.location) {
            return false;
        }
        if !same_opt_text(&self.organization, &other.organization) {
            return false;
        }
        if !same_opt_num(&self.issue, &other.issue) {
            return false;
        }
        if !same_opt_range(&self.volume, &other.volume) {
            return false;
        }
        if !same_opt_int(&self.volume_total, &other.volume_total) {
            return false;
        }
        if !same_opt_num(&self.edition, &other.edition) {
            return false;
        }
        if !same_opt_range(&self.page_range, &other.page_range) {
            return false;
        }
        if !same_opt_int(&self.page_total, &other.page_total) {
            return false;
        }
        if !same_opt_stretch(&self.time_range, &other.time_range) {
            return false;
        }
        if !same_opt_span(&self.runtime, &other.runtime) {
            return false;
        }
        if !same_opt_url(&self.url, &other.url) {
            return false;
        }
        if !same_opt_text(&self.doi, &other.doi) {
            return false;
        }
        if !same_opt_text(&self.serial_number, &other.serial_number) {
            return false;
        }
        if !same_opt_text(&self.isbn, &other.isbn) {
            return false;
        }
        if !same_opt_text(&self.issn, &other.issn) {
            return false;
        }
        if !same_opt_text(&self.language, &other.language) {
            return false;
        }
        if !same_opt_text(&self.archive, &other.archive) {
            return false;
        }
        if !same_opt_text(&self.archive_location, &other.archive_location) {
            return false;
        }
        if !same_opt_text(&self.call_number, &other.call_number) {
            return false;
        }
        if !same_opt_text(&self.note, &other.note) {
            return false;
        }
        true
    }
}

} // verus!
