//! The values that the fields of an entry hold, each with its mathematical view.

use crate::text::same_text;
use vstd::prelude::*;

verus! {

/// The view of an optional text.
pub open spec fn opt_text(o: Option<String>) -> Option<Seq<char>> {
    match o {
        Some(s) => Some(s@),
        None => None,
    }
}

/// A copy of an optional text.
pub fn clone_opt_text(o: &Option<String>) -> (r: Option<String>)
    ensures
        opt_text(r) == opt_text(*o),
{
    match o {
        Some(s) => Some(s.clone()),
        None => None,
    }
}

/// A calendar date of which the month and the day may be unknown. Months and
/// days count from zero.
#[derive(Clone, Copy, Debug, PartialEq, Eq)]
pub struct Date {
    /// The year; zero and negative years count backwards from 1 BC.
    pub year: i32,
    /// The month, zero for January.
    pub month: Option<u8>,
    /// The day of the month, zero for the first.
    pub day: Option<u8>,
}

/// An inclusive range of whole numbers, such as pages or volumes.
#[derive(Clone, Copy, Debug, PartialEq, Eq)]
pub struct NumRange {
    /// The first number of the range.
    pub start: i64,
    /// The last number of the range.
    pub end: i64,
}

/// A span of time, as the runtime of a film or a position within it.
#[derive(Clone, Copy, Debug, PartialEq, Eq)]
pub struct Duration {
    /// Whole days.
    pub days: u32,
    /// Hours within the day.
    pub hours: u32,
    /// Minutes within the hour.
    pub minutes: u32,
    /// Seconds within the minute.
    pub seconds: u8,
    /// Milliseconds within the second.
    pub milliseconds: u16,
}

/// The stretch of time between two positions in a work.
#[derive(Clone, Copy, Debug, PartialEq, Eq)]
pub struct DurationRange {
    /// Where the stretch starts.
    pub start: Duration,
    /// Where the stretch ends.
    pub end: Duration,
}

/// A value that is a number where it can be read as one, and free text
/// otherwise.
#[derive(Debug, PartialEq, Eq)]
pub enum NumOrStr {
    /// A whole number.
    Number(i64),
    /// Free text.
    Str(String),
}

/// The view of a [`NumOrStr`].
pub enum NumOrStrView {
    /// A whole number.
    Number(i64),
    /// Free text.
    Str(Seq<char>),
}

impl View for NumOrStr {
    type V = NumOrStrView;

    open spec fn view(&self) -> NumOrStrView {
        match self {
            NumOrStr::Number(n) => NumOrStrView::Number(*n),
            NumOrStr::Str(s) => NumOrStrView::Str(s@),
        }
    }
}

impl Clone for NumOrStr {
    fn clone(&self) -> (r: Self)
        ensures
            r@ == self@,
    {
        match self {
            NumOrStr::Number(n) => NumOrStr::Number(*n),
            NumOrStr::Str(s) => NumOrStr::Str(s.clone()),
        }
    }
}

/// A URL together with the date at which it was last visited.
#[derive(Debug, PartialEq, Eq)]
pub struct QualifiedUrl {
    /// The URL as text.
    pub value: String,
    /// When the URL was last visited.
    pub visit_date: Option<Date>,
}

/// The view of a [`QualifiedUrl`].
pub struct QualifiedUrlView {
    /// The URL as text.
    pub value: Seq<char>,
    /// When the URL was last visited.
    pub visit_date: Option<Date>,
}

impl View for QualifiedUrl {
    type V = QualifiedUrlView;

    open spec fn view(&self) -> QualifiedUrlView {
        QualifiedUrlView { value: self.value@, visit_date: self.visit_date }
    }
}

impl Clone for QualifiedUrl {
    fn clone(&self) -> (r: Self)
        ensures
            r@ == self@,
    {
        QualifiedUrl { value: self.value.clone(), visit_date: self.visit_date }
    }
}

/// A person involved in the creation of a work.
#[derive(Debug, PartialEq, Eq)]
pub struct Person {
    /// The family name.
    pub name: String,
    /// The given names, including middle names.
    pub given_name: Option<String>,
    /// A prefix of the family name, such as "van".
    pub prefix: Option<String>,
    /// A suffix of the family name, such as "Jr.".
    pub suffix: Option<String>,
    /// Another name under which the person is known, such as a handle.
    pub alias: Option<String>,
}

/// The view of a [`Person`].
pub struct PersonView {
    /// The family name.
    pub name: Seq<char>,
    /// The given names.
    pub given_name: Option<Seq<char>>,
    /// The prefix of the family name.
    pub prefix: Option<Seq<char>>,
    /// The suffix of the family name.
    pub suffix: Option<Seq<char>>,
    /// The alias.
    pub alias: Option<Seq<char>>,
}

impl View for Person {
    type V = PersonView;

    open spec fn view(&self) -> PersonView {
        PersonView {
            name: self.name@,
            given_name: opt_text(self.given_name),
            prefix: opt_text(self.prefix),
            suffix: opt_text(self.suffix),
            alias: opt_text(self.alias),
        }
    }
}

impl Clone for Person {
    fn clone(&self) -> (r: Self)
        ensures
            r@ == self@,
    {
        Person {
            name: self.name.clone(),
            given_name: clone_opt_text(&self.given_name),
            prefix: clone_opt_text(&self.prefix),
            suffix: clone_opt_text(&self.suffix),
            alias: clone_opt_text(&self.alias),
        }
    }
}

/// The views of a sequence of persons.
pub open spec fn persons_view(s: Seq<Person>) -> Seq<PersonView> {
    s.map_values(|p: Person| p@)
}

/// A copy of a list of persons.
pub fn clone_persons(v: &Vec<Person>) -> (r: Vec<Person>)
    ensures
        persons_view(r@) == persons_view(v@),
{
    let mut r: Vec<Person> = Vec::new();
    let mut i: usize = 0;
    while i < v.len()
        invariant
            i <= v.len(),
            r@.len() == i,
            forall|j: int| 0 <= j < i ==> r@[j]@ == v@[j]@,
        decreases v.len() - i,
    {
        r.push(v[i].clone());
        i += 1;
    }
    assert(persons_view(r@) =~= persons_view(v@));
    r
}

/// What a person contributed to a work, other than as author or editor.
#[derive(Debug, PartialEq, Eq)]
pub enum PersonRole {
    /// Rendered the work into the language of the cited edition.
    Translator,
    /// Authored an afterword.
    Afterword,
    /// Authored a foreword.
    Foreword,
    /// Authored an introduction.
    Introduction,
    /// Provided value-adding annotations.
    Annotator,
    /// Commented the work.
    Commentator,
    /// Holds a patent or similar.
    Holder,
    /// Compiled the works in an anthology.
    Compiler,
    /// Founded the publication.
    Founder,
    /// Collaborated on the cited item.
    Collaborator,
    /// Organized the creation of the cited item.
    Organizer,
    /// Performed in the cited item.
    CastMember,
    /// Composed all or parts of the cited item's musical or audible components.
    Composer,
    /// Produced the cited item.
    Producer,
    /// Lead producer for the cited item.
    ExecutiveProducer,
    /// Did the writing for the cited item.
    Writer,
    /// Shot film or video for the cited item.
    Cinematography,
    /// Directed the cited item.
    Director,
    /// Illustrated the cited item.
    Illustrator,
    /// Provided narration or voice-over for the cited item.
    Narrator,
    /// A role that is none of the above, under its own name.
    Unknown(String),
}

/// The view of a [`PersonRole`].
pub enum RoleView {
    /// Rendered the work into the language of the cited edition.
    Translator,
    /// Authored an afterword.
    Afterword,
    /// Authored a foreword.
    Foreword,
    /// Authored an introduction.
    Introduction,
    /// Provided value-adding annotations.
    Annotator,
    /// Commented the work.
    Commentator,
    /// Holds a patent or similar.
    Holder,
    /// Compiled the works in an anthology.
    Compiler,
    /// Founded the publication.
    Founder,
    /// Collaborated on the cited item.
    Collaborator,
    /// Organized the creation of the cited item.
    Organizer,
    /// Performed in the cited item.
    CastMember,
    /// Composed all or parts of the cited item's musical or audible components.
    Composer,
    /// Produced the cited item.
    Producer,
    /// Lead producer for the cited item.
    ExecutiveProducer,
    /// Did the writing for the cited item.
    Writer,
    /// Shot film or video for the cited item.
    Cinematography,
    /// Directed the cited item.
    Director,
    /// Illustrated the cited item.
    Illustrator,
    /// Provided narration or voice-over for the cited item.
    Narrator,
    /// A role that is none of the above, under its own name.
    Unknown(Seq<char>),
}

impl View for PersonRole {
    type V = RoleView;

    open spec fn view(&self) -> RoleView {
        match self {
            PersonRole::Translator => RoleView::Translator,
            PersonRole::Afterword => RoleView::Afterword,
            PersonRole::Foreword => RoleView::Foreword,
            PersonRole::Introduction => RoleView::Introduction,
            PersonRole::Annotator => RoleView::Annotator,
            PersonRole::Commentator => RoleView::Commentator,
            PersonRole::Holder => RoleView::Holder,
            PersonRole::Compiler => RoleView::Compiler,
            PersonRole::Founder => RoleView::Founder,
            PersonRole::Collaborator => RoleView::Collaborator,
            PersonRole::Organizer => RoleView::Organizer,
            PersonRole::CastMember => RoleView::CastMember,
            PersonRole::Composer => RoleView::Composer,
            PersonRole::Producer => RoleView::Producer,
            PersonRole::ExecutiveProducer => RoleView::ExecutiveProducer,
            PersonRole::Writer => RoleView::Writer,
            PersonRole::Cinematography => RoleView::Cinematography,
            PersonRole::Director => RoleView::Director,
            PersonRole::Illustrator => RoleView::Illustrator,
            PersonRole::Narrator => RoleView::Narrator,
            PersonRole::Unknown(s) => RoleView::Unknown(s@),
        }
    }
}

impl Clone for PersonRole {
    fn clone(&self) -> (r: Self)
        ensures
            r@ == self@,
    {
        match self {
            PersonRole::Translator => PersonRole::Translator,
            PersonRole::Afterword => PersonRole::Afterword,
            PersonRole::Foreword => PersonRole::Foreword,
            PersonRole::Introduction => PersonRole::Introduction,
            PersonRole::Annotator => PersonRole::Annotator,
            PersonRole::Commentator => PersonRole::Commentator,
            PersonRole::Holder => PersonRole::Holder,
            PersonRole::Compiler => PersonRole::Compiler,
            PersonRole::Founder => PersonRole::Founder,
            PersonRole::Collaborator => PersonRole::Collaborator,
            PersonRole::Organizer => PersonRole::Organizer,
            PersonRole::CastMember => PersonRole::CastMember,
            PersonRole::Composer => PersonRole::Composer,
            PersonRole::Producer => PersonRole::Producer,
            PersonRole::ExecutiveProducer => PersonRole::ExecutiveProducer,
            PersonRole::Writer => PersonRole::Writer,
            PersonRole::Cinematography => PersonRole::Cinematography,
            PersonRole::Director => PersonRole::Director,
            PersonRole::Illustrator => PersonRole::Illustrator,
            PersonRole::Narrator => PersonRole::Narrator,
            PersonRole::Unknown(s) => PersonRole::Unknown(s.clone()),
        }
    }
}

impl PersonRole {
    /// Whether two roles are the same.
    pub fn same(&self, other: &PersonRole) -> (r: bool)
        ensures
            r == (self@ == other@),
    {
        match (self, other) {
            (PersonRole::Translator, PersonRole::Translator) => true,
            (PersonRole::Afterword, PersonRole::Afterword) => true,
            (PersonRole::Foreword, PersonRole::Foreword) => true,
            (PersonRole::Introduction, PersonRole::Introduction) => true,
            (PersonRole::Annotator, PersonRole::Annotator) => true,
            (PersonRole::Commentator, PersonRole::Commentator) => true,
            (PersonRole::Holder, PersonRole::Holder) => true,
            (PersonRole::Compiler, PersonRole::Compiler) => true,
            (PersonRole::Founder, PersonRole::Founder) => true,
            (PersonRole::Collaborator, PersonRole::Collaborator) => true,
            (PersonRole::Organizer, PersonRole::Organizer) => true,
            (PersonRole::CastMember, PersonRole::CastMember) => true,
            (PersonRole::Composer, PersonRole::Composer) => true,
            (PersonRole::Producer, PersonRole::Producer) => true,
            (PersonRole::ExecutiveProducer, PersonRole::ExecutiveProducer) => true,
            (PersonRole::Writer, PersonRole::Writer) => true,
            (PersonRole::Cinematography, PersonRole::Cinematography) => true,
            (PersonRole::Director, PersonRole::Director) => true,
            (PersonRole::Illustrator, PersonRole::Illustrator) => true,
            (PersonRole::Narrator, PersonRole::Narrator) => true,
            (PersonRole::Unknown(a), PersonRole::Unknown(b)) => same_text(a.as_str(), b.as_str()),
            _ => false,
        }
    }
}

/// Persons who share one role in the creation of a work.
#[derive(Debug, PartialEq, Eq)]
pub struct PersonsWithRoles {
    /// The persons.
    pub names: Vec<Person>,
    /// What they contributed.
    pub role: PersonRole,
}

/// The view of a [`PersonsWithRoles`].
pub struct PersonsWithRolesView {
    /// The persons.
    pub names: Seq<PersonView>,
    /// What they contributed.
    pub role: RoleView,
}

impl View for PersonsWithRoles {
    type V = PersonsWithRolesView;

    open spec fn view(&self) -> PersonsWithRolesView {
        PersonsWithRolesView { names: persons_view(self.names@), role: self.role@ }
    }
}

impl Clone for PersonsWithRoles {
    fn clone(&self) -> (r: Self)
        ensures
            r@ == self@,
    {
        PersonsWithRoles { names: clone_persons(&self.names), role: self.role.clone() }
    }
}

/// The views of a sequence of role groups.
pub open spec fn groups_view(s: Seq<PersonsWithRoles>) -> Seq<PersonsWithRolesView> {
    s.map_values(|g: PersonsWithRoles| g@)
}

/// A copy of a list of role groups.
pub fn clone_groups(v: &Vec<PersonsWithRoles>) -> (r: Vec<PersonsWithRoles>)
    ensures
        groups_view(r@) == groups_view(v@),
{
    let mut r: Vec<PersonsWithRoles> = Vec::new();
    let mut i: usize = 0;
    while i < v.len()
        invariant
            i <= v.len(),
            r@.len() == i,
            forall|j: int| 0 <= j < i ==> r@[j]@ == v@[j]@,
        decreases v.len() - i,
    {
        r.push(v[i].clone());
        i += 1;
    }
    assert(groups_view(r@) =~= groups_view(v@));
    r
}

/// Whether two optional texts are the same.
pub fn same_opt_text(a: &Option<String>, b: &Option<String>) -> (r: bool)
    ensures
        r == (opt_text(*a) == opt_text(*b)),
{
    match (a, b) {
        (Some(x), Some(y)) => same_text(x.as_str(), y.as_str()),
        (None, None) => true,
        _ => false,
    }
}

impl Date {
    /// Whether two dates are the same.
    pub fn same(&self, other: &Date) -> (r: bool)
        ensures
            r == (*self == *other),
    {
        let months = match (self.month, other.month) {
            (Some(x), Some(y)) => x == y,
            (None, None) => true,
            _ => false,
        };
        let days = match (self.day, other.day) {
            (Some(x), Some(y)) => x == y,
            (None, None) => true,
            _ => false,
        };
        self.year == other.year && months && days
    }
}

/// Whether two optional dates are the same.
pub fn same_opt_date(a: &Option<Date>, b: &Option<Date>) -> (r: bool)
    ensures
        r == (*a == *b),
{
    match (a, b) {
        (Some(x), Some(y)) => x.same(y),
        (None, None) => true,
        _ => false,
    }
}

impl NumRange {
    /// Whether two ranges are the same.
    pub fn same(&self, other: &NumRange) -> (r: bool)
        ensures
            r == (*self == *other),
    {
        self.start == other.start && self.end == other.end
    }
}

impl Duration {
    /// Whether two spans of time are the same.
    pub fn same(&self, other: &Duration) -> (r: bool)
        ensures
            r == (*self == *other),
    {
        self.days == other.days && self.hours == other.hours && self.minutes == other.minutes
            && self.seconds == other.seconds && self.milliseconds == other.milliseconds
    }
}

impl DurationRange {
    /// Whether two stretches of time are the same.
    pub fn same(&self, other: &DurationRange) -> (r: bool)
        ensures
            r == (*self == *other),
    {
        self.start.same(&other.start) && self.end.same(&other.end)
    }
}

impl NumOrStr {
    /// Whether two values are the same.
    pub fn same(&self, other: &NumOrStr) -> (r: bool)
        ensures
            r == (self@ == other@),
    {
        match (self, other) {
            (NumOrStr::Number(x), NumOrStr::Number(y)) => *x == *y,
            (NumOrStr::Str(x), NumOrStr::Str(y)) => same_text(x.as_str(), y.as_str()),
            _ => false,
        }
    }
}

impl QualifiedUrl {
    /// Whether two URLs with their dates of access are the same.
    pub fn same(&self, other: &QualifiedUrl) -> (r: bool)
        ensures
            r == (self@ == other@),
    {
        same_text(self.value.as_str(), other.value.as_str()) && same_opt_date(
            &self.visit_date,
            &other.visit_date,
        )
    }
}

impl Person {
    /// Whether two persons are the same.
    pub fn same(&self, other: &Person) -> (r: bool)
        ensures
            r == (self@ == other@),
    {
        same_text(self.name.as_str(), other.name.as_str()) && same_opt_text(
            &self.given_name,
            &other.given_name,
        ) && same_opt_text(&self.prefix, &other.prefix) && same_opt_text(
            &self.suffix,
            &other.suffix,
        ) && same_opt_text(&self.alias, &other.alias)
    }
}

/// Whether two lists of persons are the same.
pub fn same_persons(a: &Vec<Person>, b: &Vec<Person>) -> (r: bool)
    ensures
        r == (persons_view(a@) == persons_view(b@)),
{
    if a.len() != b.len() {
        assert(persons_view(a@).len() != persons_view(b@).len());
        return false;
    }
    let mut i: usize = 0;
    while i < a.len()
        invariant
            i <= a.len(),
            a.len() == b.len(),
            forall|j: int| 0 <= j < i ==> a@[j]@ == b@[j]@,
        decreases a.len() - i,
    {
        if !a[i].same(&b[i]) {
            assert(persons_view(a@)[i as int] != persons_view(b@)[i as int]);
            return false;
        }
        i += 1;
    }
    assert(persons_view(a@) =~= persons_view(b@));
    true
}

impl PersonsWithRoles {
    /// Whether two groups are the same.
    pub fn same(&self, other: &PersonsWithRoles) -> (r: bool)
        ensures
            r == (self@ == other@),
    {
        same_persons(&self.names, &other.names) && self.role.same(&other.role)
    }
}

/// Whether two lists of role groups are the same.
pub fn same_groups(a: &Vec<PersonsWithRoles>, b: &Vec<PersonsWithRoles>) -> (r: bool)
    ensures
        r == (groups_view(a@) == groups_view(b@)),
{
    if a.len() != b.len() {
        assert(groups_view(a@).len() != groups_view(b@).len());
        return false;
    }
    let mut i: usize = 0;
    while i < a.len()
        invariant
            i <= a.len(),
            a.len() == b.len(),
            forall|j: int| 0 <= j < i ==> a@[j]@ == b@[j]@,
        decreases a.len() - i,
    {
        if !a[i].same(&b[i]) {
            assert(groups_view(a@)[i as int] != groups_view(b@)[i as int]);
            return false;
        }
        i += 1;
    }
    assert(groups_view(a@) =~= groups_view(b@));
    true
}

} // verus!
