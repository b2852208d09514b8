//! The closed set of entry kinds and the names by which selectors refer to them.

use crate::text::spells;
use vstd::prelude::*;

verus! {

/// The kind of work an entry stands for.
#[derive(Clone, Copy, Debug, PartialEq, Eq, Hash, Structural)]
pub enum EntryType {
    /// A short text, possibly of journalistic or scientific nature, published in a periodical.
    Article,
    /// A section of a greater containing work.
    Chapter,
    /// A short segment of media on some subject matter, such as an encyclopedia entry.
    Entry,
    /// Text published within an anthology.
    InAnthology,
    /// A document compiled by authors that may be affiliated to an organization.
    Report,
    /// Scholarly work delivered to fulfil degree requirements at a higher education institution.
    Thesis,
    /// Piece of content that can be found on the internet and is native to the medium.
    WebItem,
    /// A part of a show or another type of performed media.
    Scene,
    /// A form of artistic or creative expression.
    Artwork,
    /// A technical document deposited at a government agency.
    Patent,
    /// Reference to a legal case that was or is to be heard at a court of law.
    Case,
    /// The issue of a newspaper that was published on a given day.
    Newspaper,
    /// Legal document or draft thereof that is, is to be, or was to be enacted into binding law.
    Legislation,
    /// A document that is not yet published.
    Manuscript,
    /// A post on a micro-blogging platform.
    Post,
    /// Items that do not match any of the other kinds.
    Misc,
    /// A publication that periodically publishes issues with unique content.
    Periodical,
    /// The official published record of the events at a professional conference.
    Proceedings,
    /// Long-form work published physically as a set of bound sheets.
    Book,
    /// Set of self-published articles on a website.
    Blog,
    /// A work of reference, such as an encyclopedia or a dictionary.
    Reference,
    /// Professional conference.
    Conference,
    /// Collection of different texts on a single topic or theme.
    Anthology,
    /// Publicly visible storage of the source code for a particular software.
    Repository,
    /// Written discussion on the internet that a first post set off.
    Thread,
    /// Motion picture of any form.
    Video,
    /// Recorded audible sound of any kind.
    Audio,
    /// A curated set of artworks.
    Exhibition,
}

impl EntryType {
    /// The lower-case name under which selectors know this kind.
    pub open spec fn name_spec(self) -> Seq<char> {
        match self {
            EntryType::Article => "article"@,
            EntryType::Chapter => "chapter"@,
            EntryType::Entry => "entry"@,
            EntryType::InAnthology => "anthos"@,
            EntryType::Report => "report"@,
            EntryType::Thesis => "thesis"@,
            EntryType::WebItem => "web"@,
            EntryType::Scene => "scene"@,
            EntryType::Artwork => "artwork"@,
            EntryType::Patent => "patent"@,
            EntryType::Case => "case"@,
            EntryType::Newspaper => "newspaper"@,
            EntryType::Legislation => "legislation"@,
            EntryType::Manuscript => "manuscript"@,
            EntryType::Post => "post"@,
            EntryType::Misc => "misc"@,
            EntryType::Periodical => "periodical"@,
            EntryType::Proceedings => "proceedings"@,
            EntryType::Book => "book"@,
            EntryType::Blog => "blog"@,
            EntryType::Reference => "reference"@,
            EntryType::Conference => "conference"@,
            EntryType::Anthology => "anthology"@,
            EntryType::Repository => "repository"@,
            EntryType::Thread => "thread"@,
            EntryType::Video => "video"@,
            EntryType::Audio => "audio"@,
            EntryType::Exhibition => "exhibition"@,
        }
    }

    /// The lower-case name under which selectors know this kind.
    pub fn name(&self) -> (r: &'static str)
        ensures
            r@ == self.name_spec(),
    {
        match self {
            EntryType::Article => "article",
            EntryType::Chapter => "chapter",
            EntryType::Entry => "entry",
            EntryType::InAnthology => "anthos",
            EntryType::Report => "report",
            EntryType::Thesis => "thesis",
            EntryType::WebItem => "web",
            EntryType::Scene => "scene",
            EntryType::Artwork => "artwork",
            EntryType::Patent => "patent",
            EntryType::Case => "case",
            EntryType::Newspaper => "newspaper",
            EntryType::Legislation => "legislation",
            EntryType::Manuscript => "manuscript",
            EntryType::Post => "post",
            EntryType::Misc => "misc",
            EntryType::Periodical => "periodical",
            EntryType::Proceedings => "proceedings",
            EntryType::Book => "book",
            EntryType::Blog => "blog",
            EntryType::Reference => "reference",
            EntryType::Conference => "conference",
            EntryType::Anthology => "anthology",
            EntryType::Repository => "repository",
            EntryType::Thread => "thread",
            EntryType::Video => "video",
            EntryType::Audio => "audio",
            EntryType::Exhibition => "exhibition",
        }
    }

    /// The kind that a parent takes when it states none of its own, given the
    /// kind of the entry it contains.
    pub open spec fn default_parent_spec(self) -> EntryType {
        match self {
            EntryType::Article => EntryType::Periodical,
            EntryType::Chapter => EntryType::Book,
            EntryType::Entry => EntryType::Reference,
            EntryType::InAnthology => EntryType::Anthology,
            EntryType::WebItem => EntryType::WebItem,
            EntryType::Scene => EntryType::Video,
            EntryType::Artwork => EntryType::Exhibition,
            EntryType::Legislation => EntryType::Anthology,
            EntryType::Post => EntryType::Post,
            EntryType::Video => EntryType::Video,
            EntryType::Audio => EntryType::Audio,
            _ => EntryType::Misc,
        }
    }

    /// The kind that a parent takes when it states none of its own.
    pub fn default_parent(&self) -> (r: EntryType)
        ensures
            r == self.default_parent_spec(),
    {
        match self {
            EntryType::Article => EntryType::Periodical,
            EntryType::Chapter => EntryType::Book,
            EntryType::Entry => EntryType::Reference,
            EntryType::InAnthology => EntryType::Anthology,
            EntryType::WebItem => EntryType::WebItem,
            EntryType::Scene => EntryType::Video,
            EntryType::Artwork => EntryType::Exhibition,
            EntryType::Legislation => EntryType::Anthology,
            EntryType::Post => EntryType::Post,
            EntryType::Video => EntryType::Video,
            EntryType::Audio => EntryType::Audio,
            _ => EntryType::Misc,
        }
    }
}

/// The kind named by a lower-case word, if the word names one.
#[verifier::opaque]
pub open spec fn type_named(word: Seq<char>) -> Option<EntryType> {
    if word == "article"@ {
        Some(EntryType::Article)
    } else if word == "chapter"@ {
        Some(EntryType::Chapter)
    } else if word == "entry"@ {
        Some(EntryType::Entry)
    } else if word == "anthos"@ {
        Some(EntryType::InAnthology)
    } else if word == "report"@ {
        Some(EntryType::Report)
    } else if word == "thesis"@ {
        Some(EntryType::Thesis)
    } else if word == "web"@ {
        Some(EntryType::WebItem)
    } else if word == "scene"@ {
        Some(EntryType::Scene)
    } else if word == "artwork"@ {
        Some(EntryType::Artwork)
    } else if word == "patent"@ {
        Some(EntryType::Patent)
    } else if word == "case"@ {
        Some(EntryType::Case)
    } else if word == "newspaper"@ {
        Some(EntryType::Newspaper)
    } else if word == "legislation"@ {
        Some(EntryType::Legislation)
    } else if word == "manuscript"@ {
        Some(EntryType::Manuscript)
    } else if word == "post"@ {
        Some(EntryType::Post)
    } else if word == "misc"@ {
        Some(EntryType::Misc)
    } else if word == "periodical"@ {
        Some(EntryType::Periodical)
    } else if word == "proceedings"@ {
        Some(EntryType::Proceedings)
    } else if word == "book"@ {
        Some(EntryType::Book)
    } else if word == "blog"@ {
        Some(EntryType::Blog)
    } else if word == "reference"@ {
        Some(EntryType::Reference)
    } else if word == "conference"@ {
        Some(EntryType::Conference)
    } else if word == "anthology"@ {
        Some(EntryType::Anthology)
    } else if word == "repository"@ {
        Some(EntryType::Repository)
    } else if word == "thread"@ {
        Some(EntryType::Thread)
    } else if word == "video"@ {
        Some(EntryType::Video)
    } else if word == "audio"@ {
        Some(EntryType::Audio)
    } else if word == "exhibition"@ {
        Some(EntryType::Exhibition)
    } else {
        None
    }
}

/// Looks up the kind named, in any letter case, by `chars[from..to]`.
pub fn type_by_name(chars: &Vec<char>, from: usize, to: usize) -> (r: Option<EntryType>)
    requires
        from <= to <= chars@.len(),
    ensures
        r == type_named(crate::text::lowered(chars@.subrange(from as int, to as int))),
{
    reveal(type_named);
    if spells(chars, from, to, "article") {
        Some(EntryType::Article)
    } else if spells(chars, from, to, "chapter") {
        Some(EntryType::Chapter)
    } else if spells(chars, from, to, "entry") {
        Some(EntryType::Entry)
    } else if spells(chars, from, to, "anthos") {
        Some(EntryType::InAnthology)
    } else if spells(chars, from, to, "report") {
        Some(EntryType::Report)
    } else if spells(chars, from, to, "thesis") {
        Some(EntryType::Thesis)
    } else if spells(chars, from, to, "web") {
        Some(EntryType::WebItem)
    } else if spells(chars, from, to, "scene") {
        Some(EntryType::Scene)
    } else if spells(chars, from, to, "artwork") {
        Some(EntryType::Artwork)
    } else if spells(chars, from, to, "patent") {
        Some(EntryType::Patent)
    } else if spells(chars, from, to, "case") {
        Some(EntryType::Case)
    } else if spells(chars, from, to, "newspaper") {
        Some(EntryType::Newspaper)
    } else if spells(chars, from, to, "legislation") {
        Some(EntryType::Legislation)
    } else if spells(chars, from, to, "manuscript") {
        Some(EntryType::Manuscript)
    } else if spells(chars, from, to, "post") {
        Some(EntryType::Post)
    } else if spells(chars, from, to, "misc") {
        Some(EntryType::Misc)
    } else if spells(chars, from, to, "periodical") {
        Some(EntryType::Periodical)
    } else if spells(chars, from, to, "proceedings") {
        Some(EntryType::Proceedings)
    } else if spells(chars, from, to, "book") {
        Some(EntryType::Book)
    } else if spells(chars, from, to, "blog") {
        Some(EntryType::Blog)
    } else if spells(chars, from, to, "reference") {
        Some(EntryType::Reference)
    } else if spells(chars, from, to, "conference") {
        Some(EntryType::Conference)
    } else if spells(chars, from, to, "anthology") {
        Some(EntryType::Anthology)
    } else if spells(chars, from, to, "repository") {
        Some(EntryType::Repository)
    } else if spells(chars, from, to, "thread") {
        Some(EntryType::Thread)
    } else if spells(chars, from, to, "video") {
        Some(EntryType::Video)
    } else if spells(chars, from, to, "audio") {
        Some(EntryType::Audio)
    } else if spells(chars, from, to, "exhibition") {
        Some(EntryType::Exhibition)
    } else {
        None
    }
}

/// A text of another length, or with another character at some place, is
/// another text.
proof fn lemma_differ(a: Seq<char>, b: Seq<char>, i: int)
    requires
        a.len() != b.len() || (0 <= i < a.len() && a[i] != b[i]),
    ensures
        a != b,
{
}

/// The names of the kinds are told apart by their lengths and their letters,
/// so that every kind is found under its own name.
pub proof fn lemma_kind_by_name(t: EntryType)
    ensures
        type_named(t.name_spec()) == Some(t),
{
    reveal(type_named);
    reveal_strlit("article");
    reveal_strlit("chapter");
    reveal_strlit("entry");
    reveal_strlit("anthos");
    reveal_strlit("report");
    reveal_strlit("thesis");
    reveal_strlit("web");
    reveal_strlit("scene");
    reveal_strlit("artwork");
    reveal_strlit("patent");
    reveal_strlit("case");
    reveal_strlit("newspaper");
    reveal_strlit("legislation");
    reveal_strlit("manuscript");
    reveal_strlit("post");
    reveal_strlit("misc");
    reveal_strlit("periodical");
    reveal_strlit("proceedings");
    reveal_strlit("book");
    reveal_strlit("blog");
    reveal_strlit("reference");
    reveal_strlit("conference");
    reveal_strlit("anthology");
    reveal_strlit("repository");
    reveal_strlit("thread");
    reveal_strlit("video");
    reveal_strlit("audio");
    reveal_strlit("exhibition");
    match t {
        EntryType::Article => {
        },
        EntryType::Chapter => {
            lemma_differ("chapter"@, "article"@, 0);
        },
        EntryType::Entry => {
            lemma_differ("entry"@, "article"@, 0);
            lemma_differ("entry"@, "chapter"@, 0);
        },
        EntryType::InAnthology => {
            lemma_differ("anthos"@, "article"@, 0);
            lemma_differ("anthos"@, "chapter"@, 0);
            lemma_differ("anthos"@, "entry"@, 0);
        },
        EntryType::Report => {
            lemma_differ("report"@, "article"@, 0);
            lemma_differ("report"@, "chapter"@, 0);
            lemma_differ("report"@, "entry"@, 0);
            lemma_differ("report"@, "anthos"@, 0);
        },
        EntryType::Thesis => {
            lemma_differ("thesis"@, "article"@, 0);
            lemma_differ("thesis"@, "chapter"@, 0);
            lemma_differ("thesis"@, "entry"@, 0);
            lemma_differ("thesis"@, "anthos"@, 0);
            lemma_differ("thesis"@, "report"@, 0);
        },
        EntryType::WebItem => {
            lemma_differ("web"@, "article"@, 0);
            lemma_differ("web"@, "chapter"@, 0);
            lemma_differ("web"@, "entry"@, 0);
            lemma_differ("web"@, "anthos"@, 0);
            lemma_differ("web"@, "report"@, 0);
            lemma_differ("web"@, "thesis"@, 0);
        },
        EntryType::Scene => {
            lemma_differ("scene"@, "article"@, 0);
            lemma_differ("scene"@, "chapter"@, 0);
            lemma_differ("scene"@, "entry"@, 0);
            lemma_differ("scene"@, "anthos"@, 0);
            lemma_differ("scene"@, "report"@, 0);
            lemma_differ("scene"@, "thesis"@, 0);
            lemma_differ("scene"@, "web"@, 0);
        },
        EntryType::Artwork => {
            lemma_differ("artwork"@, "article"@, 3);
            lemma_differ("artwork"@, "chapter"@, 0);
            lemma_differ("artwork"@, "entry"@, 0);
            lemma_differ("artwork"@, "anthos"@, 0);
            lemma_differ("artwork"@, "report"@, 0);
            lemma_differ("artwork"@, "thesis"@, 0);
            lemma_differ("artwork"@, "web"@, 0);
            lemma_differ("artwork"@, "scene"@, 0);
        },
        EntryType::Patent => {
            lemma_differ("patent"@, "article"@, 0);
            lemma_differ("patent"@, "chapter"@, 0);
            lemma_differ("patent"@, "entry"@, 0);
            lemma_differ("patent"@, "anthos"@, 0);
            lemma_differ("patent"@, "report"@, 0);
            lemma_differ("patent"@, "thesis"@, 0);
            lemma_differ("patent"@, "web"@, 0);
            lemma_differ("patent"@, "scene"@, 0);
            lemma_differ("patent"@, "artwork"@, 0);
        },
        EntryType::Case => {
            lemma_differ("case"@, "article"@, 0);
            lemma_differ("case"@, "chapter"@, 0);
            lemma_differ("case"@, "entry"@, 0);
            lemma_differ("case"@, "anthos"@, 0);
            lemma_differ("case"@, "report"@, 0);
            lemma_differ("case"@, "thesis"@, 0);
            lemma_differ("case"@, "web"@, 0);
            lemma_differ("case"@, "scene"@, 0);
            lemma_differ("case"@, "artwork"@, 0);
            lemma_differ("case"@, "patent"@, 0);
        },
        EntryType::Newspaper => {
            lemma_differ("newspaper"@, "article"@, 0);
            lemma_differ("newspaper"@, "chapter"@, 0);
            lemma_differ("newspaper"@, "entry"@, 0);
            lemma_differ("newspaper"@, "anthos"@, 0);
            lemma_differ("newspaper"@, "report"@, 0);
            lemma_differ("newspaper"@, "thesis"@, 0);
            lemma_differ("newspaper"@, "web"@, 0);
            lemma_differ("newspaper"@, "scene"@, 0);
            lemma_differ("newspaper"@, "artwork"@, 0);
            lemma_differ("newspaper"@, "patent"@, 0);
            lemma_differ("newspaper"@, "case"@, 0);
        },
        EntryType::Legislation => {
            lemma_differ("legislation"@, "article"@, 0);
            lemma_differ("legislation"@, "chapter"@, 0);
            lemma_differ("legislation"@, "entry"@, 0);
            lemma_differ("legislation"@, "anthos"@, 0);
            lemma_differ("legislation"@, "report"@, 0);
            lemma_differ("legislation"@, "thesis"@, 0);
            lemma_differ("legislation"@, "web"@, 0);
            lemma_differ("legislation"@, "scene"@, 0);
            lemma_differ("legislation"@, "artwork"@, 0);
            lemma_differ("legislation"@, "patent"@, 0);
            lemma_differ("legislation"@, "case"@, 0);
            lemma_differ("legislation"@, "newspaper"@, 0);
        },
        EntryType::Manuscript => {
            lemma_differ("manuscript"@, "article"@, 0);
            lemma_differ("manuscript"@, "chapter"@, 0);
            lemma_differ("manuscript"@, "entry"@, 0);
            lemma_differ("manuscript"@, "anthos"@, 0);
            lemma_differ("manuscript"@, "report"@, 0);
            lemma_differ("manuscript"@, "thesis"@, 0);
            lemma_differ("manuscript"@, "web"@, 0);
            lemma_differ("manuscript"@, "scene"@, 0);
            lemma_differ("manuscript"@, "artwork"@, 0);
            lemma_differ("manuscript"@, "patent"@, 0);
            lemma_differ("manuscript"@, "case"@, 0);
            lemma_differ("manuscript"@, "newspaper"@, 0);
            lemma_differ("manuscript"@, "legislation"@, 0);
        },
        EntryType::Post => {
            lemma_differ("post"@, "article"@, 0);
            lemma_differ("post"@, "chapter"@, 0);
            lemma_differ("post"@, "entry"@, 0);
            lemma_differ("post"@, "anthos"@, 0);
            lemma_differ("post"@, "report"@, 0);
            lemma_differ("post"@, "thesis"@, 0);
            lemma_differ("post"@, "web"@, 0);
            lemma_differ("post"@, "scene"@, 0);
            lemma_differ("post"@, "artwork"@, 0);
            lemma_differ("post"@, "patent"@, 0);
            lemma_differ("post"@, "case"@, 0);
            lemma_differ("post"@, "newspaper"@, 0);
            lemma_differ("post"@, "legislation"@, 0);
            lemma_differ("post"@, "manuscript"@, 0);
        },
        EntryType::Misc => {
            lemma_differ("misc"@, "article"@, 0);
            lemma_differ("misc"@, "chapter"@, 0);
            lemma_differ("misc"@, "entry"@, 0);
            lemma_differ("misc"@, "anthos"@, 0);
            lemma_differ("misc"@, "report"@, 0);
            lemma_differ("misc"@, "thesis"@, 0);
            lemma_differ("misc"@, "web"@, 0);
            lemma_differ("misc"@, "scene"@, 0);
            lemma_differ("misc"@, "artwork"@, 0);
            lemma_differ("misc"@, "patent"@, 0);
            lemma_differ("misc"@, "case"@, 0);
            lemma_differ("misc"@, "newspaper"@, 0);
            lemma_differ("misc"@, "legislation"@, 0);
            lemma_differ("misc"@, "manuscript"@, 0);
            lemma_differ("misc"@, "post"@, 0);
        },
        EntryType::Periodical => {
            lemma_differ("periodical"@, "article"@, 0);
            lemma_differ("periodical"@, "chapter"@, 0);
            lemma_differ("periodical"@, "entry"@, 0);
            lemma_differ("periodical"@, "anthos"@, 0);
            lemma_differ("periodical"@, "report"@, 0);
            lemma_differ("periodical"@, "thesis"@, 0);
            lemma_differ("periodical"@, "web"@, 0);
            lemma_differ("periodical"@, "scene"@, 0);
            lemma_differ("periodical"@, "artwork"@, 0);
            lemma_differ("periodical"@, "patent"@, 0);
            lemma_differ("periodical"@, "case"@, 0);
            lemma_differ("periodical"@, "newspaper"@, 0);
            lemma_differ("periodical"@, "legislation"@, 0);
            lemma_differ("periodical"@, "manuscript"@, 0);
            lemma_differ("periodical"@, "post"@, 0);
            lemma_differ("periodical"@, "misc"@, 0);
        },
        EntryType::Proceedings => {
            lemma_differ("proceedings"@, "article"@, 0);
            lemma_differ("proceedings"@, "chapter"@, 0);
            lemma_differ("proceedings"@, "entry"@, 0);
            lemma_differ("proceedings"@, "anthos"@, 0);
            lemma_differ("proceedings"@, "report"@, 0);
            lemma_differ("proceedings"@, "thesis"@, 0);
            lemma_differ("proceedings"@, "web"@, 0);
            lemma_differ("proceedings"@, "scene"@, 0);
            lemma_differ("proceedings"@, "artwork"@, 0);
            lemma_differ("proceedings"@, "patent"@, 0);
            lemma_differ("proceedings"@, "case"@, 0);
            lemma_differ("proceedings"@, "newspaper"@, 0);
            lemma_differ("proceedings"@, "legislation"@, 0);
            lemma_differ("proceedings"@, "manuscript"@, 0);
            lemma_differ("proceedings"@, "post"@, 0);
            lemma_differ("proceedings"@, "misc"@, 0);
            lemma_differ("proceedings"@, "periodical"@, 0);
        },
        EntryType::Book => {
            lemma_differ("book"@, "article"@, 0);
            lemma_differ("book"@, "chapter"@, 0);
            lemma_differ("book"@, "entry"@, 0);
            lemma_differ("book"@, "anthos"@, 0);
            lemma_differ("book"@, "report"@, 0);
            lemma_differ("book"@, "thesis"@, 0);
            lemma_differ("book"@, "web"@, 0);
            lemma_differ("book"@, "scene"@, 0);
            lemma_differ("book"@, "artwork"@, 0);
            lemma_differ("book"@, "patent"@, 0);
            lemma_differ("book"@, "case"@, 0);
            lemma_differ("book"@, "newspaper"@, 0);
            lemma_differ("book"@, "legislation"@, 0);
            lemma_differ("book"@, "manuscript"@, 0);
            lemma_differ("book"@, "post"@, 0);
            lemma_differ("book"@, "misc"@, 0);
            lemma_differ("book"@, "periodical"@, 0);
            lemma_differ("book"@, "proceedings"@, 0);
        },
        EntryType::Blog => {
            lemma_differ("blog"@, "article"@, 0);
            lemma_differ("blog"@, "chapter"@, 0);
            lemma_differ("blog"@, "entry"@, 0);
            lemma_differ("blog"@, "anthos"@, 0);
            lemma_differ("blog"@, "report"@, 0);
            lemma_differ("blog"@, "thesis"@, 0);
            lemma_differ("blog"@, "web"@, 0);
            lemma_differ("blog"@, "scene"@, 0);
            lemma_differ("blog"@, "artwork"@, 0);
            lemma_differ("blog"@, "patent"@, 0);
            lemma_differ("blog"@, "case"@, 0);
            lemma_differ("blog"@, "newspaper"@, 0);
            lemma_differ("blog"@, "legislation"@, 0);
            lemma_differ("blog"@, "manuscript"@, 0);
            lemma_differ("blog"@, "post"@, 0);
            lemma_differ("blog"@, "misc"@, 0);
            lemma_differ("blog"@, "periodical"@, 0);
            lemma_differ("blog"@, "proceedings"@, 0);
            lemma_differ("blog"@, "book"@, 1);
        },
        EntryType::Reference => {
            lemma_differ("reference"@, "article"@, 0);
            lemma_differ("reference"@, "chapter"@, 0);
            lemma_differ("reference"@, "entry"@, 0);
            lemma_differ("reference"@, "anthos"@, 0);
            lemma_differ("reference"@, "report"@, 0);
            lemma_differ("reference"@, "thesis"@, 0);
            lemma_differ("reference"@, "web"@, 0);
            lemma_differ("reference"@, "scene"@, 0);
            lemma_differ("reference"@, "artwork"@, 0);
            lemma_differ("reference"@, "patent"@, 0);
            lemma_differ("reference"@, "case"@, 0);
            lemma_differ("reference"@, "newspaper"@, 0);
            lemma_differ("reference"@, "legislation"@, 0);
            lemma_differ("reference"@, "manuscript"@, 0);
            lemma_differ("reference"@, "post"@, 0);
            lemma_differ("reference"@, "misc"@, 0);
            lemma_differ("reference"@, "periodical"@, 0);
            lemma_differ("reference"@, "proceedings"@, 0);
            lemma_differ("reference"@, "book"@, 0);
            lemma_differ("reference"@, "blog"@, 0);
        },
        EntryType::Conference => {
            lemma_differ("conference"@, "article"@, 0);
            lemma_differ("conference"@, "chapter"@, 0);
            lemma_differ("conference"@, "entry"@, 0);
            lemma_differ("conference"@, "anthos"@, 0);
            lemma_differ("conference"@, "report"@, 0);
            lemma_differ("conference"@, "thesis"@, 0);
            lemma_differ("conference"@, "web"@, 0);
            lemma_differ("conference"@, "scene"@, 0);
            lemma_differ("conference"@, "artwork"@, 0);
            lemma_differ("conference"@, "patent"@, 0);
            lemma_differ("conference"@, "case"@, 0);
            lemma_differ("conference"@, "newspaper"@, 0);
            lemma_differ("conference"@, "legislation"@, 0);
            lemma_differ("conference"@, "manuscript"@, 0);
            lemma_differ("conference"@, "post"@, 0);
            lemma_differ("conference"@, "misc"@, 0);
            lemma_differ("conference"@, "periodical"@, 0);
            lemma_differ("conference"@, "proceedings"@, 0);
            lemma_differ("conference"@, "book"@, 0);
            lemma_differ("conference"@, "blog"@, 0);
            lemma_differ("conference"@, "reference"@, 0);
        },
        EntryType::Anthology => {
            lemma_differ("anthology"@, "article"@, 0);
            lemma_differ("anthology"@, "chapter"@, 0);
            lemma_differ("anthology"@, "entry"@, 0);
            lemma_differ("anthology"@, "anthos"@, 0);
            lemma_differ("anthology"@, "report"@, 0);
            lemma_differ("anthology"@, "thesis"@, 0);
            lemma_differ("anthology"@, "web"@, 0);
            lemma_differ("anthology"@, "scene"@, 0);
            lemma_differ("anthology"@, "artwork"@, 0);
            lemma_differ("anthology"@, "patent"@, 0);
            lemma_differ("anthology"@, "case"@, 0);
            lemma_differ("anthology"@, "newspaper"@, 0);
            lemma_differ("anthology"@, "legislation"@, 0);
            lemma_differ("anthology"@, "manuscript"@, 0);
            lemma_differ("anthology"@, "post"@, 0);
            lemma_differ("anthology"@, "misc"@, 0);
            lemma_differ("anthology"@, "periodical"@, 0);
            lemma_differ("anthology"@, "proceedings"@, 0);
            lemma_differ("anthology"@, "book"@, 0);
            lemma_differ("anthology"@, "blog"@, 0);
            lemma_differ("anthology"@, "reference"@, 0);
            lemma_differ("anthology"@, "conference"@, 0);
        },
        EntryType::Repository => {
            lemma_differ("repository"@, "article"@, 0);
            lemma_differ("repository"@, "chapter"@, 0);
            lemma_differ("repository"@, "entry"@, 0);
            lemma_differ("repository"@, "anthos"@, 0);
            lemma_differ("repository"@, "report"@, 0);
            lemma_differ("repository"@, "thesis"@, 0);
            lemma_differ("repository"@, "web"@, 0);
            lemma_differ("repository"@, "scene"@, 0);
            lemma_differ("repository"@, "artwork"@, 0);
            lemma_differ("repository"@, "patent"@, 0);
            lemma_differ("repository"@, "case"@, 0);
            lemma_differ("repository"@, "newspaper"@, 0);
            lemma_differ("repository"@, "legislation"@, 0);
            lemma_differ("repository"@, "manuscript"@, 0);
            lemma_differ("repository"@, "post"@, 0);
            lemma_differ("repository"@, "misc"@, 0);
            lemma_differ("repository"@, "periodical"@, 0);
            lemma_differ("repository"@, "proceedings"@, 0);
            lemma_differ("repository"@, "book"@, 0);
            lemma_differ("repository"@, "blog"@, 0);
            lemma_differ("repository"@, "reference"@, 0);
            lemma_differ("repository"@, "conference"@, 0);
            lemma_differ("repository"@, "anthology"@, 0);
        },
        EntryType::Thread => {
            lemma_differ("thread"@, "article"@, 0);
            lemma_differ("thread"@, "chapter"@, 0);
            lemma_differ("thread"@, "entry"@, 0);
            lemma_differ("thread"@, "anthos"@, 0);
            lemma_differ("thread"@, "report"@, 0);
            lemma_differ("thread"@, "thesis"@, 2);
            lemma_differ("thread"@, "web"@, 0);
            lemma_differ("thread"@, "scene"@, 0);
            lemma_differ("thread"@, "artwork"@, 0);
            lemma_differ("thread"@, "patent"@, 0);
            lemma_differ("thread"@, "case"@, 0);
            lemma_differ("thread"@, "newspaper"@, 0);
            lemma_differ("thread"@, "legislation"@, 0);
            lemma_differ("thread"@, "manuscript"@, 0);
            lemma_differ("thread"@, "post"@, 0);
            lemma_differ("thread"@, "misc"@, 0);
            lemma_differ("thread"@, "periodical"@, 0);
            lemma_differ("thread"@, "proceedings"@, 0);
            lemma_differ("thread"@, "book"@, 0);
            lemma_differ("thread"@, "blog"@, 0);
            lemma_differ("thread"@, "reference"@, 0);
            lemma_differ("thread"@, "conference"@, 0);
            lemma_differ("thread"@, "anthology"@, 0);
            lemma_differ("thread"@, "repository"@, 0);
        },
        EntryType::Video => {
            lemma_differ("video"@, "article"@, 0);
            lemma_differ("video"@, "chapter"@, 0);
            lemma_differ("video"@, "entry"@, 0);
            lemma_differ("video"@, "anthos"@, 0);
            lemma_differ("video"@, "report"@, 0);
            lemma_differ("video"@, "thesis"@, 0);
            lemma_differ("video"@, "web"@, 0);
            lemma_differ("video"@, "scene"@, 0);
            lemma_differ("video"@, "artwork"@, 0);
            lemma_differ("video"@, "patent"@, 0);
            lemma_differ("video"@, "case"@, 0);
            lemma_differ("video"@, "newspaper"@, 0);
            lemma_differ("video"@, "legislation"@, 0);
            lemma_differ("video"@, "manuscript"@, 0);
            lemma_differ("video"@, "post"@, 0);
            lemma_differ("video"@, "misc"@, 0);
            lemma_differ("video"@, "periodical"@, 0);
            lemma_differ("video"@, "proceedings"@, 0);
            lemma_differ("video"@, "book"@, 0);
            lemma_differ("video"@, "blog"@, 0);
            lemma_differ("video"@, "reference"@, 0);
            lemma_differ("video"@, "conference"@, 0);
            lemma_differ("video"@, "anthology"@, 0);
            lemma_differ("video"@, "repository"@, 0);
            lemma_differ("video"@, "thread"@, 0);
        },
        EntryType::Audio => {
            lemma_differ("audio"@, "article"@, 0);
            lemma_differ("audio"@, "chapter"@, 0);
            lemma_differ("audio"@, "entry"@, 0);
            lemma_differ("audio"@, "anthos"@, 0);
            lemma_differ("audio"@, "report"@, 0);
            lemma_differ("audio"@, "thesis"@, 0);
            lemma_differ("audio"@, "web"@, 0);
            lemma_differ("audio"@, "scene"@, 0);
            lemma_differ("audio"@, "artwork"@, 0);
            lemma_differ("audio"@, "patent"@, 0);
            lemma_differ("audio"@, "case"@, 0);
            lemma_differ("audio"@, "newspaper"@, 0);
            lemma_differ("audio"@, "legislation"@, 0);
            lemma_differ("audio"@, "manuscript"@, 0);
            lemma_differ("audio"@, "post"@, 0);
            lemma_differ("audio"@, "misc"@, 0);
            lemma_differ("audio"@, "periodical"@, 0);
            lemma_differ("audio"@, "proceedings"@, 0);
            lemma_differ("audio"@, "book"@, 0);
            lemma_differ("audio"@, "blog"@, 0);
            lemma_differ("audio"@, "reference"@, 0);
            lemma_differ("audio"@, "conference"@, 0);
            lemma_differ("audio"@, "anthology"@, 0);
            lemma_differ("audio"@, "repository"@, 0);
            lemma_differ("audio"@, "thread"@, 0);
            lemma_differ("audio"@, "video"@, 0);
        },
        EntryType::Exhibition => {
            lemma_differ("exhibition"@, "article"@, 0);
            lemma_differ("exhibition"@, "chapter"@, 0);
            lemma_differ("exhibition"@, "entry"@, 0);
            lemma_differ("exhibition"@, "anthos"@, 0);
            lemma_differ("exhibition"@, "report"@, 0);
            lemma_differ("exhibition"@, "thesis"@, 0);
            lemma_differ("exhibition"@, "web"@, 0);
            lemma_differ("exhibition"@, "scene"@, 0);
            lemma_differ("exhibition"@, "artwork"@, 0);
            lemma_differ("exhibition"@, "patent"@, 0);
            lemma_differ("exhibition"@, "case"@, 0);
            lemma_differ("exhibition"@, "newspaper"@, 0);
            lemma_differ("exhibition"@, "legislation"@, 0);
            lemma_differ("exhibition"@, "manuscript"@, 0);
            lemma_differ("exhibition"@, "post"@, 0);
            lemma_differ("exhibition"@, "misc"@, 0);
            lemma_differ("exhibition"@, "periodical"@, 0);
            lemma_differ("exhibition"@, "proceedings"@, 0);
            lemma_differ("exhibition"@, "book"@, 0);
            lemma_differ("exhibition"@, "blog"@, 0);
            lemma_differ("exhibition"@, "reference"@, 0);
            lemma_differ("exhibition"@, "conference"@, 0);
            lemma_differ("exhibition"@, "anthology"@, 0);
            lemma_differ("exhibition"@, "repository"@, 0);
            lemma_differ("exhibition"@, "thread"@, 0);
            lemma_differ("exhibition"@, "video"@, 0);
            lemma_differ("exhibition"@, "audio"@, 0);
        },
    }
}

} // verus!
