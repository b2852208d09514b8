//! A cache of parsed selector texts, so that a text that is used again and
//! again is parsed once.

use crate::selector::ast::Ast;
use crate::selector::grammar::{parse_text, SelectorError};
use crate::selector::Selector;
use crate::text::{chars_of, same_chars, texts};
use vstd::pervasive::unreached;
use vstd::prelude::*;

verus! {

/// What parsing gave for a text.
pub type Parse = Result<Selector, SelectorError>;

/// What parsing gave for a text, as a mathematical value.
pub open spec fn parse_view(p: Parse) -> Result<Ast, SelectorError> {
    match p {
        Ok(s) => Ok(s@),
        Err(e) => Err(e),
    }
}

/// Selector texts with what parsing gave for each of them.
#[derive(Debug)]
pub struct SelectorCache {
    sources: Vec<String>,
    parses: Vec<Parse>,
}

impl SelectorCache {
    #[verifier::type_invariant]
    spec fn consistent(self) -> bool {
        &&& self.sources@.len() == self.parses@.len()
        &&& texts(self.sources@).no_duplicates()
        &&& forall|i: int|
            0 <= i < self.sources@.len() ==> parse_view(#[trigger] self.parses@[i]) == parse_text(
                self.sources@[i]@,
            )
    }

    /// The texts that were parsed, in the order in which they were first
    /// asked for.
    pub closed spec fn parsed(self) -> Seq<Seq<char>> {
        texts(self.sources@)
    }

    /// A cache that holds nothing yet.
    pub fn new() -> (r: SelectorCache)
        ensures
            r.parsed() == Seq::<Seq<char>>::empty(),
    {
        let r = SelectorCache { sources: Vec::new(), parses: Vec::new() };
        assert(texts(r.sources@) =~= Seq::<Seq<char>>::empty());
        r
    }

    /// The number of texts that were parsed.
    pub fn len(&self) -> (n: usize)
        ensures
            n == self.parsed().len(),
    {
        self.sources.len()
    }

    /// The position in the cache of the text: where the cache has the text
    /// already, nothing is parsed and nothing changes; otherwise the text is
    /// parsed and becomes the last of the cache.
    pub fn find_or_parse(&mut self, text: &str) -> (i: usize)
        ensures
            i < final(self).parsed().len(),
            final(self).parsed()[i as int] == text@,
            final(self).parsed() == if old(self).parsed().contains(text@) {
                old(self).parsed()
            } else {
                old(self).parsed().push(text@)
            },
    {
        proof {
            use_type_invariant(&*self);
        }
        let wanted = chars_of(text);
        let mut i: usize = 0;
        while i < self.sources.len()
            invariant
                i <= self.sources.len(),
                wanted@ == text@,
                *self == *old(self),
                forall|j: int| 0 <= j < i ==> texts(self.sources@)[j] != text@,
            decreases self.sources.len() - i,
        {
            let held = chars_of(self.sources[i].as_str());
            if same_chars(&held, &wanted) {
                assert(texts(self.sources@)[i as int] == text@);
                return i;
            }
            i += 1;
        }
        let parse = Selector::parse(text);
        let ghost before = texts(self.sources@);
        let mut taken = SelectorCache::new();
        core::mem::swap(self, &mut taken);
        let mut sources = taken.sources;
        let mut parses = taken.parses;
        sources.push(text.to_owned());
        parses.push(parse);
        proof {
            let after = texts(sources@);
            assert(after =~= before.push(text@));
            assert forall|a: int, b: int|
                0 <= a < after.len() && 0 <= b < after.len() && a != b implies after[a]
                != after[b] by {
                if a < before.len() && b < before.len() {
                    assert(before[a] != before[b]);
                }
            }
        }
        *self = SelectorCache { sources, parses };
        i
    }

    /// What parsing gave for the text at position `i`, if the cache holds
    /// that many texts.
    pub fn at(&self, i: usize) -> (r: Option<&Parse>)
        ensures
            match r {
                Some(parse) => i < self.parsed().len() && parse_view(*parse) == parse_text(
                    self.parsed()[i as int],
                ),
                None => i >= self.parsed().len(),
            },
    {
        proof {
            use_type_invariant(self);
        }
        if i < self.parses.len() {
            Some(&self.parses[i])
        } else {
            None
        }
    }

    /// The selector that the text denotes, or the refusal of the text. The
    /// text is parsed only where the cache does not have it yet.
    pub fn select(&mut self, text: &str) -> (r: Parse)
        ensures
            parse_view(r) == parse_text(text@),
            final(self).parsed() == if old(self).parsed().contains(text@) {
                old(self).parsed()
            } else {
                old(self).parsed().push(text@)
            },
    {
        let i = self.find_or_parse(text);
        match self.at(i) {
            Some(Ok(s)) => Ok(s.clone()),
            Some(Err(e)) => Err(*e),
            None => unreached(),
        }
    }
}

} // verus!
