//! Selector texts with the expressions they denote and the entries they
//! match.

use crate::entry::EntryView;
use crate::kind::{lemma_kind_by_name, EntryType};
use crate::selector::ast::Ast;
use crate::selector::reading::{
    lemma_bare_name, lemma_name_run, lemma_no_blank, lemma_one_blank, lemma_primary_group,
    lemma_primary_kind, lemma_quoted_name, lemma_reads_alternation, lemma_reads_both,
    lemma_reads_capture, lemma_reads_conjunction, lemma_reads_either,
    lemma_reads_either_of_three, lemma_reads_filter, lemma_reads_group, lemma_reads_kind,
    lemma_reads_negation, lemma_reads_parent, lemma_reads_plain, lemma_reads_relation,
    lemma_reads_unfiltered, lemma_reads_whole, lemma_reads_wildcard,
};
use crate::selector::grammar::{parse_text, Name, Parsed, SelectorError};
use crate::selector::laws::{
    captured_child_and_parents, captured_parent, field_nowhere, kind_under_kind,
    wildcard_with_field,
};
use crate::selector::semantics::{bindings, selects};
use crate::text::lowered;
use vstd::prelude::*;

verus! {

/// An article under proceedings, as an expression.
pub open spec fn article_in_proceedings() -> Ast {
    Ast::Parent(
        Box::new(Ast::Type(EntryType::Article)),
        Box::new(Ast::Type(EntryType::Proceedings)),
    )
}

/// The text `article > proceedings` denotes an article under proceedings,
/// and matches exactly the articles that have at least one parent that is
/// proceedings.
pub proof fn article_under_proceedings(e: EntryView)
    ensures
        parse_text("article > proceedings"@) == Ok::<Ast, SelectorError>(article_in_proceedings()),
        selects(article_in_proceedings(), e) <==> e.entry_type == EntryType::Article
            && exists|i: int|
            0 <= i < e.parents.len() && (#[trigger] e.parents[i]).entry_type
                == EntryType::Proceedings,
{
    reveal_strlit("article > proceedings");
    reveal_strlit("article");
    reveal_strlit("proceedings");
    let s = "article > proceedings"@;
    let none = Seq::<Seq<char>>::empty();
    lemma_kind_by_name(EntryType::Article);
    lemma_kind_by_name(EntryType::Proceedings);
    lemma_no_blank(s, 0);
    lemma_name_run(s, 0, 7);
    lemma_one_blank(s, 7);
    lemma_one_blank(s, 9);
    lemma_name_run(s, 10, 11);
    lemma_no_blank(s, 21);
    assert(lowered(s.subrange(0, 7)) =~= "article"@);
    assert(lowered(s.subrange(10, 21)) =~= "proceedings"@);

    let child = Parsed { node: Ast::Type(EntryType::Article), used: 7, seen: none };
    lemma_reads_kind(s, 0, none, EntryType::Article);
    lemma_reads_unfiltered(s, 0, none, child);
    lemma_reads_plain(s, 0, none, child);
    lemma_reads_conjunction(s, 0, none, child);
    lemma_reads_alternation(s, 0, none, child);

    let parents = Parsed { node: Ast::Type(EntryType::Proceedings), used: 12, seen: none };
    lemma_reads_kind(s, 9, none, EntryType::Proceedings);
    lemma_reads_unfiltered(s, 9, none, parents);
    lemma_reads_plain(s, 9, none, parents);
    lemma_reads_conjunction(s, 9, none, parents);
    lemma_reads_alternation(s, 9, none, parents);
    lemma_reads_relation(s, 9, none, parents);

    lemma_reads_parent(s, 0, none, child, parents);
    let whole = Parsed { node: article_in_proceedings(), used: 21, seen: none };
    lemma_reads_whole(s, whole);
    kind_under_kind(EntryType::Article, EntryType::Proceedings, e);
}

/// Any entry with a URL, as an expression.
pub open spec fn any_with_url() -> Ast {
    Ast::AttrFilter(Box::new(Ast::Wildcard), "url"@)
}

/// The text `*[url]` denotes the wildcard with the field `url`, and matches
/// exactly the entries that expose a non-empty URL.
pub proof fn entries_with_url(e: EntryView)
    ensures
        parse_text("*[url]"@) == Ok::<Ast, SelectorError>(any_with_url()),
        selects(any_with_url(), e) == e.has("url"@),
{
    reveal_strlit("*[url]");
    reveal_strlit("url");
    let s = "*[url]"@;
    let none = Seq::<Seq<char>>::empty();
    lemma_no_blank(s, 0);
    lemma_no_blank(s, 1);
    lemma_no_blank(s, 2);
    lemma_name_run(s, 2, 3);
    lemma_no_blank(s, 5);
    lemma_no_blank(s, 6);
    lemma_bare_name(s, 2);
    assert(s.subrange(2, 5) =~= "url"@);

    let star = Parsed { node: Ast::Wildcard, used: 1, seen: none };
    lemma_reads_wildcard(s, 0, none);
    lemma_reads_filter(s, 0, none, star, Name { text: "url"@, used: 3 });
    let whole = Parsed { node: any_with_url(), used: 6, seen: none };
    lemma_reads_plain(s, 0, none, whole);
    lemma_reads_conjunction(s, 0, none, whole);
    lemma_reads_alternation(s, 0, none, whole);
    lemma_reads_relation(s, 0, none, whole);
    lemma_reads_whole(s, whole);
    wildcard_with_field("url"@, e);
}

/// Any entry without a URL on itself and on every parent, as an expression.
pub open spec fn none_with_url() -> Ast {
    Ast::Not(
        Box::new(
            Ast::Or(
                Box::new(any_with_url()),
                Box::new(Ast::Parent(Box::new(Ast::Wildcard), Box::new(any_with_url()))),
            ),
        ),
    )
}

/// The text `!(*[url] | (* > *[url]))` denotes the negation of "has a URL, or
/// has a parent with a URL", and matches exactly the entries that lack a URL
/// on themselves and on every parent.
pub proof fn entries_without_url_anywhere(e: EntryView)
    ensures
        parse_text("!(*[url] | (* > *[url]))"@) == Ok::<Ast, SelectorError>(none_with_url()),
        selects(none_with_url(), e) <==> !e.has("url"@) && forall|i: int|
            0 <= i < e.parents.len() ==> !(#[trigger] e.parents[i]).has("url"@),
{
    reveal_strlit("!(*[url] | (* > *[url]))");
    reveal_strlit("url");
    let s = "!(*[url] | (* > *[url]))"@;
    let none = Seq::<Seq<char>>::empty();
    let url = Name { text: "url"@, used: 3 };
    lemma_no_blank(s, 0);
    lemma_no_blank(s, 1);
    lemma_no_blank(s, 2);
    lemma_no_blank(s, 3);
    lemma_no_blank(s, 4);
    lemma_name_run(s, 4, 3);
    lemma_bare_name(s, 4);
    lemma_no_blank(s, 7);
    lemma_one_blank(s, 8);
    lemma_one_blank(s, 10);
    lemma_no_blank(s, 11);
    lemma_no_blank(s, 12);
    lemma_one_blank(s, 13);
    lemma_one_blank(s, 15);
    lemma_no_blank(s, 16);
    lemma_no_blank(s, 17);
    lemma_no_blank(s, 18);
    lemma_name_run(s, 18, 3);
    lemma_bare_name(s, 18);
    lemma_no_blank(s, 21);
    lemma_no_blank(s, 22);
    lemma_no_blank(s, 23);
    lemma_no_blank(s, 24);
    assert(s.subrange(4, 7) =~= "url"@);
    assert(s.subrange(18, 21) =~= "url"@);

    // `*[url]` from 2 to 8.
    let star = Parsed { node: Ast::Wildcard, used: 1, seen: none };
    let left = Parsed { node: any_with_url(), used: 6, seen: none };
    lemma_reads_wildcard(s, 2, none);
    lemma_reads_filter(s, 2, none, star, url);
    lemma_reads_plain(s, 2, none, left);
    lemma_reads_conjunction(s, 2, none, left);

    // `*` from 12 to 13.
    lemma_reads_wildcard(s, 12, none);
    lemma_reads_unfiltered(s, 12, none, star);
    lemma_reads_plain(s, 12, none, star);
    lemma_reads_conjunction(s, 12, none, star);
    lemma_reads_alternation(s, 12, none, star);

    // ` *[url]` from 15 to 22.
    let far_star = Parsed { node: Ast::Wildcard, used: 2, seen: none };
    let far = Parsed { node: any_with_url(), used: 7, seen: none };
    lemma_reads_wildcard(s, 15, none);
    lemma_reads_filter(s, 15, none, far_star, url);
    lemma_reads_plain(s, 15, none, far);
    lemma_reads_conjunction(s, 15, none, far);
    lemma_reads_alternation(s, 15, none, far);
    lemma_reads_relation(s, 15, none, far);

    // `* > *[url]` from 12 to 22, and in parentheses from 10 to 23.
    let under = Ast::Parent(Box::new(Ast::Wildcard), Box::new(any_with_url()));
    let related = Parsed { node: under, used: 10, seen: none };
    lemma_reads_parent(s, 12, none, star, far);
    let right = Parsed { node: under, used: 13, seen: none };
    lemma_reads_group(s, 10, none, related);
    lemma_reads_unfiltered(s, 10, none, right);
    lemma_reads_plain(s, 10, none, right);
    lemma_reads_conjunction(s, 10, none, right);

    // The alternation from 2 to 23, and in parentheses from 1 to 24.
    let either = Ast::Or(Box::new(any_with_url()), Box::new(under));
    let both = Parsed { node: either, used: 21, seen: none };
    lemma_reads_either(s, 2, none, left, right);
    lemma_reads_relation(s, 2, none, both);
    let grouped = Parsed { node: either, used: 23, seen: none };
    lemma_reads_group(s, 1, none, both);
    lemma_reads_unfiltered(s, 1, none, grouped);

    // The negation from 0 to 24.
    let whole = Parsed { node: none_with_url(), used: 24, seen: none };
    lemma_reads_negation(s, 0, none, grouped);
    lemma_reads_conjunction(s, 0, none, whole);
    lemma_reads_alternation(s, 0, none, whole);
    lemma_reads_relation(s, 0, none, whole);
    lemma_reads_whole(s, whole);
    field_nowhere("url"@, e);
}

/// A dated article under a periodical that is captured as `journal`, as an
/// expression.
pub open spec fn dated_article_in_journal() -> Ast {
    Ast::Parent(
        Box::new(Ast::AttrFilter(Box::new(Ast::Type(EntryType::Article)), "date"@)),
        Box::new(Ast::Capture("journal"@, Box::new(Ast::Type(EntryType::Periodical)))),
    )
}

/// The text `(Article["date"]) > ("journal":Periodical)` denotes a dated
/// article under a periodical captured as `journal`. An article with a date
/// whose first periodical among its parents is the parent at `k` matches it,
/// and `journal` is then bound to that parent and nothing else is bound.
pub proof fn dated_article_under_journal(e: EntryView, k: int)
    requires
        e.entry_type == EntryType::Article,
        e.has("date"@),
        0 <= k < e.parents.len(),
        e.parents[k].entry_type == EntryType::Periodical,
        forall|j: int| 0 <= j < k ==> (#[trigger] e.parents[j]).entry_type != EntryType::Periodical,
    ensures
        parse_text("(Article[\"date\"]) > (\"journal\":Periodical)"@) == Ok::<Ast, SelectorError>(
            dated_article_in_journal(),
        ),
        selects(dated_article_in_journal(), e),
        bindings(dated_article_in_journal(), e) == Map::<Seq<char>, EntryView>::empty().insert(
            "journal"@,
            e.parents[k],
        ),
{
    reveal_strlit("(Article[\"date\"]) > (\"journal\":Periodical)");
    reveal_strlit("article");
    reveal_strlit("periodical");
    reveal_strlit("date");
    reveal_strlit("journal");
    let s = "(Article[\"date\"]) > (\"journal\":Periodical)"@;
    let none = Seq::<Seq<char>>::empty();
    let named = none.push("journal"@);
    lemma_kind_by_name(EntryType::Article);
    lemma_kind_by_name(EntryType::Periodical);
    lemma_no_blank(s, 0);
    lemma_no_blank(s, 1);
    lemma_name_run(s, 1, 7);
    lemma_no_blank(s, 8);
    lemma_no_blank(s, 9);
    lemma_quoted_name(s, 9, 4);
    lemma_no_blank(s, 15);
    lemma_no_blank(s, 16);
    lemma_one_blank(s, 17);
    lemma_one_blank(s, 19);
    lemma_no_blank(s, 21);
    lemma_quoted_name(s, 21, 7);
    lemma_no_blank(s, 30);
    lemma_no_blank(s, 31);
    lemma_name_run(s, 31, 10);
    lemma_no_blank(s, 41);
    lemma_no_blank(s, 42);
    assert(lowered(s.subrange(1, 8)) =~= "article"@);
    assert(lowered(s.subrange(31, 41)) =~= "periodical"@);
    assert(s.subrange(10, 14) =~= "date"@);
    assert(s.subrange(22, 29) =~= "journal"@);

    // `Article["date"]` from 1 to 16, and in parentheses from 0 to 17.
    let kind = Parsed { node: Ast::Type(EntryType::Article), used: 7, seen: none };
    let dated = Ast::AttrFilter(Box::new(Ast::Type(EntryType::Article)), "date"@);
    let inner = Parsed { node: dated, used: 15, seen: none };
    lemma_reads_kind(s, 1, none, EntryType::Article);
    lemma_reads_filter(s, 1, none, kind, Name { text: "date"@, used: 6 });
    lemma_reads_plain(s, 1, none, inner);
    lemma_reads_conjunction(s, 1, none, inner);
    lemma_reads_alternation(s, 1, none, inner);
    lemma_reads_relation(s, 1, none, inner);
    let child = Parsed { node: dated, used: 17, seen: none };
    lemma_reads_group(s, 0, none, inner);
    lemma_reads_unfiltered(s, 0, none, child);
    lemma_reads_plain(s, 0, none, child);
    lemma_reads_conjunction(s, 0, none, child);
    lemma_reads_alternation(s, 0, none, child);

    // `"journal":Periodical` from 21 to 41, and in parentheses from 19 to 42.
    let journal = Ast::Capture("journal"@, Box::new(Ast::Type(EntryType::Periodical)));
    let periodical = Parsed { node: Ast::Type(EntryType::Periodical), used: 10, seen: named };
    let capture = Parsed { node: journal, used: 20, seen: named };
    lemma_primary_kind(s, 31, named, EntryType::Periodical);
    lemma_reads_capture(s, 21, none, Name { text: "journal"@, used: 9 }, periodical);
    lemma_reads_unfiltered(s, 21, none, capture);
    lemma_reads_plain(s, 21, none, capture);
    lemma_reads_conjunction(s, 21, none, capture);
    lemma_reads_alternation(s, 21, none, capture);
    lemma_reads_relation(s, 21, none, capture);
    let parents = Parsed { node: journal, used: 23, seen: named };
    lemma_reads_group(s, 19, none, capture);
    lemma_reads_unfiltered(s, 19, none, parents);
    lemma_reads_plain(s, 19, none, parents);
    lemma_reads_conjunction(s, 19, none, parents);
    lemma_reads_alternation(s, 19, none, parents);
    lemma_reads_relation(s, 19, none, parents);

    lemma_reads_parent(s, 0, none, child, parents);
    let whole = Parsed { node: dated_article_in_journal(), used: 42, seen: named };
    lemma_reads_whole(s, whole);
    captured_parent(EntryType::Article, "date"@, "journal"@, EntryType::Periodical, e, k);
}

/// A video, a blog or a web item, as an expression.
pub open spec fn some_medium() -> Ast {
    Ast::Or(
        Box::new(
            Ast::Or(
                Box::new(Ast::Type(EntryType::Video)),
                Box::new(Ast::Type(EntryType::Blog)),
            ),
        ),
        Box::new(Ast::Type(EntryType::WebItem)),
    )
}

/// An article captured as `a`, under a conference captured as `b` and a
/// medium captured as `c`, as an expression.
pub open spec fn article_at_conference_in_medium() -> Ast {
    Ast::Parent(
        Box::new(Ast::Capture("a"@, Box::new(Ast::Type(EntryType::Article)))),
        Box::new(
            Ast::And(
                Box::new(Ast::Capture("b"@, Box::new(Ast::Type(EntryType::Conference)))),
                Box::new(Ast::Capture("c"@, Box::new(some_medium()))),
            ),
        ),
    )
}

/// The text `a:article > (b:conference & c:(video|blog|web))` denotes an
/// article under a conference and a medium, with the three captures. It
/// matches exactly the articles that have a parent that is a conference and
/// a parent that is a video, a blog or a web item, and every match binds
/// `a`, `b` and `c`.
pub proof fn article_under_conference_and_medium(e: EntryView)
    ensures
        parse_text("a:article > (b:conference & c:(video|blog|web))"@) == Ok::<Ast, SelectorError>(
            article_at_conference_in_medium(),
        ),
        selects(article_at_conference_in_medium(), e) <==> {
            &&& e.entry_type == EntryType::Article
            &&& exists|i: int|
                0 <= i < e.parents.len() && (#[trigger] e.parents[i]).entry_type
                    == EntryType::Conference
            &&& exists|j: int|
                0 <= j < e.parents.len() && ({
                    ||| (#[trigger] e.parents[j]).entry_type == EntryType::Video
                    ||| e.parents[j].entry_type == EntryType::Blog
                    ||| e.parents[j].entry_type == EntryType::WebItem
                })
        },
        bindings(article_at_conference_in_medium(), e).contains_key("a"@),
        bindings(article_at_conference_in_medium(), e).contains_key("b"@),
        bindings(article_at_conference_in_medium(), e).contains_key("c"@),
{
    reveal_strlit("a:article > (b:conference & c:(video|blog|web))");
    reveal_strlit("a");
    reveal_strlit("b");
    reveal_strlit("c");
    reveal_strlit("article");
    reveal_strlit("conference");
    reveal_strlit("video");
    reveal_strlit("blog");
    reveal_strlit("web");
    let s = "a:article > (b:conference & c:(video|blog|web))"@;
    let none = Seq::<Seq<char>>::empty();
    let one = none.push("a"@);
    let two = one.push("b"@);
    let three = two.push("c"@);
    lemma_kind_by_name(EntryType::Article);
    lemma_kind_by_name(EntryType::Conference);
    lemma_kind_by_name(EntryType::Video);
    lemma_kind_by_name(EntryType::Blog);
    lemma_kind_by_name(EntryType::WebItem);
    lemma_no_blank(s, 0);
    lemma_name_run(s, 0, 1);
    lemma_bare_name(s, 0);
    lemma_no_blank(s, 1);
    lemma_no_blank(s, 2);
    lemma_name_run(s, 2, 7);
    lemma_one_blank(s, 9);
    lemma_one_blank(s, 11);
    lemma_no_blank(s, 13);
    lemma_name_run(s, 13, 1);
    lemma_bare_name(s, 13);
    lemma_no_blank(s, 14);
    lemma_no_blank(s, 15);
    lemma_name_run(s, 15, 10);
    lemma_one_blank(s, 25);
    lemma_one_blank(s, 27);
    lemma_name_run(s, 28, 1);
    lemma_bare_name(s, 28);
    lemma_no_blank(s, 29);
    lemma_no_blank(s, 30);
    lemma_no_blank(s, 31);
    lemma_name_run(s, 31, 5);
    lemma_no_blank(s, 36);
    lemma_no_blank(s, 37);
    lemma_name_run(s, 37, 4);
    lemma_no_blank(s, 41);
    lemma_no_blank(s, 42);
    lemma_name_run(s, 42, 3);
    lemma_no_blank(s, 45);
    lemma_no_blank(s, 46);
    lemma_no_blank(s, 47);
    assert(s.subrange(0, 1) =~= "a"@);
    assert(s.subrange(13, 14) =~= "b"@);
    assert(s.subrange(28, 29) =~= "c"@);
    assert(lowered(s.subrange(2, 9)) =~= "article"@);
    assert(lowered(s.subrange(15, 25)) =~= "conference"@);
    assert(lowered(s.subrange(31, 36)) =~= "video"@);
    assert(lowered(s.subrange(37, 41)) =~= "blog"@);
    assert(lowered(s.subrange(42, 45)) =~= "web"@);
    assert("a"@[0] != "b"@[0]);
    assert("a"@[0] != "c"@[0]);
    assert("b"@[0] != "c"@[0]);

    // `a:article` from 0 to 9.
    let article = Ast::Capture("a"@, Box::new(Ast::Type(EntryType::Article)));
    let child = Parsed { node: article, used: 9, seen: one };
    lemma_primary_kind(s, 2, one, EntryType::Article);
    lemma_reads_capture(
        s,
        0,
        none,
        Name { text: "a"@, used: 1 },
        Parsed { node: Ast::Type(EntryType::Article), used: 7, seen: one },
    );
    lemma_reads_unfiltered(s, 0, none, child);
    lemma_reads_plain(s, 0, none, child);
    lemma_reads_conjunction(s, 0, none, child);
    lemma_reads_alternation(s, 0, none, child);

    // `b:conference` from 13 to 25.
    let conference = Ast::Capture("b"@, Box::new(Ast::Type(EntryType::Conference)));
    let left = Parsed { node: conference, used: 12, seen: two };
    lemma_primary_kind(s, 15, two, EntryType::Conference);
    lemma_reads_capture(
        s,
        13,
        one,
        Name { text: "b"@, used: 1 },
        Parsed { node: Ast::Type(EntryType::Conference), used: 10, seen: two },
    );
    lemma_reads_unfiltered(s, 13, one, left);
    lemma_reads_plain(s, 13, one, left);

    // `video|blog|web` from 31 to 45, and in parentheses from 30 to 46.
    let video = Parsed { node: Ast::Type(EntryType::Video), used: 5, seen: three };
    let blog = Parsed { node: Ast::Type(EntryType::Blog), used: 4, seen: three };
    let web = Parsed { node: Ast::Type(EntryType::WebItem), used: 3, seen: three };
    lemma_reads_kind(s, 31, three, EntryType::Video);
    lemma_reads_unfiltered(s, 31, three, video);
    lemma_reads_plain(s, 31, three, video);
    lemma_reads_conjunction(s, 31, three, video);
    lemma_reads_kind(s, 37, three, EntryType::Blog);
    lemma_reads_unfiltered(s, 37, three, blog);
    lemma_reads_plain(s, 37, three, blog);
    lemma_reads_conjunction(s, 37, three, blog);
    lemma_reads_kind(s, 42, three, EntryType::WebItem);
    lemma_reads_unfiltered(s, 42, three, web);
    lemma_reads_plain(s, 42, three, web);
    lemma_reads_conjunction(s, 42, three, web);
    let media = Parsed { node: some_medium(), used: 14, seen: three };
    lemma_reads_either_of_three(s, 31, three, video, blog, web);
    lemma_reads_relation(s, 31, three, media);
    let medium = Parsed { node: some_medium(), used: 16, seen: three };
    lemma_primary_group(s, 30, three, media);

    // ` c:(video|blog|web)` from 27 to 46.
    let in_medium = Ast::Capture("c"@, Box::new(some_medium()));
    let right = Parsed { node: in_medium, used: 19, seen: three };
    lemma_reads_capture(s, 27, two, Name { text: "c"@, used: 1 }, medium);
    lemma_reads_unfiltered(s, 27, two, right);
    lemma_reads_plain(s, 27, two, right);

    // The conjunction from 13 to 46, and in parentheses from 11 to 47.
    let both = Ast::And(Box::new(conference), Box::new(in_medium));
    let inner = Parsed { node: both, used: 33, seen: three };
    lemma_reads_both(s, 13, one, left, right);
    lemma_reads_alternation(s, 13, one, inner);
    lemma_reads_relation(s, 13, one, inner);
    let parents = Parsed { node: both, used: 36, seen: three };
    lemma_reads_group(s, 11, one, inner);
    lemma_reads_unfiltered(s, 11, one, parents);
    lemma_reads_plain(s, 11, one, parents);
    lemma_reads_conjunction(s, 11, one, parents);
    lemma_reads_alternation(s, 11, one, parents);
    lemma_reads_relation(s, 11, one, parents);

    lemma_reads_parent(s, 0, none, child, parents);
    let whole = Parsed { node: article_at_conference_in_medium(), used: 47, seen: three };
    lemma_reads_whole(s, whole);
    captured_child_and_parents(
        "a"@,
        EntryType::Article,
        "b"@,
        Ast::Type(EntryType::Conference),
        "c"@,
        some_medium(),
        e,
    );
    lemma_medium(e);
}

/// A parent is matched as a medium exactly where it is a video, a blog or a
/// web item.
proof fn lemma_medium(e: EntryView)
    ensures
        (exists|j: int| 0 <= j < e.parents.len() && selects(some_medium(), #[trigger] e.parents[j]))
            <==> exists|j: int|
            0 <= j < e.parents.len() && ({
                ||| (#[trigger] e.parents[j]).entry_type == EntryType::Video
                ||| e.parents[j].entry_type == EntryType::Blog
                ||| e.parents[j].entry_type == EntryType::WebItem
            }),
        (exists|i: int|
            0 <= i < e.parents.len() && selects(
                Ast::Type(EntryType::Conference),
                #[trigger] e.parents[i],
            )) <==> exists|i: int|
            0 <= i < e.parents.len() && (#[trigger] e.parents[i]).entry_type
                == EntryType::Conference,
{
    reveal_with_fuel(selects, 3);
    if exists|j: int| 0 <= j < e.parents.len() && selects(some_medium(), #[trigger] e.parents[j]) {
        let j = choose|j: int|
            0 <= j < e.parents.len() && selects(some_medium(), #[trigger] e.parents[j]);
        assert(e.parents[j].entry_type == EntryType::Video || e.parents[j].entry_type
            == EntryType::Blog || e.parents[j].entry_type == EntryType::WebItem);
    }
    if exists|j: int|
        0 <= j < e.parents.len() && ({
            ||| (#[trigger] e.parents[j]).entry_type == EntryType::Video
            ||| e.parents[j].entry_type == EntryType::Blog
            ||| e.parents[j].entry_type == EntryType::WebItem
        }) {
        let j = choose|j: int|
            0 <= j < e.parents.len() && ({
                ||| (#[trigger] e.parents[j]).entry_type == EntryType::Video
                ||| e.parents[j].entry_type == EntryType::Blog
                ||| e.parents[j].entry_type == EntryType::WebItem
            });
        assert(selects(some_medium(), e.parents[j]));
    }
    if exists|i: int|
        0 <= i < e.parents.len() && selects(
            Ast::Type(EntryType::Conference),
            #[trigger] e.parents[i],
        ) {
        let i = choose|i: int|
            0 <= i < e.parents.len() && selects(
                Ast::Type(EntryType::Conference),
                #[trigger] e.parents[i],
            );
        assert(e.parents[i].entry_type == EntryType::Conference);
    }
    if exists|i: int|
        0 <= i < e.parents.len() && (#[trigger] e.parents[i]).entry_type == EntryType::Conference {
        let i = choose|i: int|
            0 <= i < e.parents.len() && (#[trigger] e.parents[i]).entry_type
                == EntryType::Conference;
        assert(selects(Ast::Type(EntryType::Conference), e.parents[i]));
    }
}

} // verus!
