//! Text for display: a string together with the stretches of it that are to
//! be set in bold, in italics or without hyphenation.

use vstd::prelude::*;
use vstd::string::StringExecFns;
use vstd::utf8::encode_utf8;

verus! {

/// How a stretch of text is to be set.
#[derive(Clone, Copy, Debug, PartialEq, Eq, Hash, Structural)]
pub enum FormatVariantOptions {
    /// In bold.
    Bold,
    /// In italics.
    Italic,
    /// Without hyphenation.
    NoHyphenation,
}

/// A stretch of text that is to be set in some way. Offsets count bytes.
#[derive(Clone, Copy, Debug, PartialEq, Eq, Hash)]
pub struct Formatting {
    /// The offset of the first byte of the stretch.
    pub start: usize,
    /// The offset of the first byte after the stretch.
    pub end: usize,
    /// How the stretch is to be set.
    pub variant: FormatVariantOptions,
}

/// A way of setting text that has been started and not yet ended.
#[derive(Clone, Copy, Debug, PartialEq, Eq, Hash)]
pub struct Pending {
    /// The offset at which it was started.
    pub start: usize,
    /// How the text is to be set.
    pub variant: FormatVariantOptions,
}

/// A string with the stretches of it that are to be set in some way.
#[derive(Debug, PartialEq, Eq)]
pub struct DisplayString {
    /// The text.
    pub value: String,
    /// The stretches that are set in some way, in the order in which they
    /// were ended.
    pub formatting: Vec<Formatting>,
    /// The ways of setting that have been started and not yet ended.
    pub pending: Vec<Pending>,
}

/// A [`DisplayString`] as a mathematical value.
pub struct DisplayView {
    /// The text.
    pub value: Seq<char>,
    /// The stretches that are set in some way.
    pub formatting: Seq<Formatting>,
    /// The ways of setting that have been started and not yet ended.
    pub pending: Seq<Pending>,
}

/// The number of bytes that a text takes.
pub open spec fn byte_len(s: Seq<char>) -> nat {
    encode_utf8(s).len()
}

/// The stretches that end at `end` for the ways of setting that were started.
pub open spec fn ended(pending: Seq<Pending>, end: usize) -> Seq<Formatting> {
    pending.map_values(|p: Pending| Formatting { start: p.start, end, variant: p.variant })
}

impl DisplayView {
    /// The empty text.
    pub open spec fn empty() -> DisplayView {
        DisplayView { value: Seq::empty(), formatting: Seq::empty(), pending: Seq::empty() }
    }

    /// The text with more text after it.
    pub open spec fn push_str(self, s: Seq<char>) -> DisplayView {
        DisplayView { value: self.value + s, ..self }
    }

    /// The text with one more way of setting started at its end.
    pub open spec fn start_format(self, variant: FormatVariantOptions) -> DisplayView {
        DisplayView {
            pending: self.pending.push(
                Pending { start: byte_len(self.value) as usize, variant },
            ),
            ..self
        }
    }

    /// The text with all started ways of setting ended at its end.
    pub open spec fn commit_formats(self) -> DisplayView {
        DisplayView {
            formatting: self.formatting + ended(self.pending, byte_len(self.value) as usize),
            pending: Seq::empty(),
            ..self
        }
    }
}

impl View for DisplayString {
    type V = DisplayView;

    open spec fn view(&self) -> DisplayView {
        DisplayView { value: self.value@, formatting: self.formatting@, pending: self.pending@ }
    }
}

impl DisplayString {
    /// The empty text.
    pub fn new() -> (r: DisplayString)
        ensures
            r@ == DisplayView::empty(),
    {
        DisplayString { value: String::new(), formatting: Vec::new(), pending: Vec::new() }
    }

    /// The number of bytes of the text.
    pub fn len(&self) -> (n: usize)
        ensures
            n == byte_len(self@.value) as usize,
    {
        self.value.as_str().len()
    }

    /// Whether the text is empty.
    pub fn is_empty(&self) -> (r: bool)
        ensures
            r == (self@.value.len() == 0),
    {
        self.value.as_str().is_empty()
    }

    /// Adds text at the end.
    pub fn push_str(&mut self, s: &str)
        ensures
            final(self)@ == old(self)@.push_str(s@),
    {
        self.value.append(s);
    }

    /// Starts a way of setting at the end of the text.
    pub fn start_format(&mut self, variant: FormatVariantOptions)
        ensures
            final(self)@ == old(self)@.start_format(variant),
    {
        let start = self.len();
        self.pending.push(Pending { start, variant });
    }

    /// Ends all started ways of setting at the end of the text.
    pub fn commit_formats(&mut self)
        ensures
            final(self)@ == old(self)@.commit_formats(),
    {
        let end = self.len();
        let ghost before = self.formatting@;
        let ghost started = self.pending@;
        let mut i: usize = 0;
        while i < self.pending.len()
            invariant
                i <= self.pending.len(),
                self.pending@ == started,
                self.value == old(self).value,
                self.formatting@ == before + ended(started.subrange(0, i as int), end),
            decreases self.pending.len() - i,
        {
            let p = self.pending[i];
            self.formatting.push(Formatting { start: p.start, end, variant: p.variant });
            assert(self.formatting@ =~= before + ended(started.subrange(0, i as int + 1), end));
            i += 1;
        }
        assert(started.subrange(0, i as int) =~= started);
        self.pending = Vec::new();
    }

    /// Adds an item, if there is one, between a prefix and a postfix.
    /// Returns whether there was one.
    pub fn add_if_some(&mut self, item: Option<&str>, prefix: Option<&str>, postfix: Option<&str>) -> (r:
        bool)
        ensures
            r == item is Some,
            final(self)@ == (match item {
                Some(text) => old(self)@.push_str(opt_str(prefix) + text@ + opt_str(postfix)),
                None => old(self)@,
            }),
    {
        match item {
            Some(text) => {
                let ghost before = self@.value;
                match prefix {
                    Some(p) => {
                        self.push_str(p);
                    },
                    None => {},
                }
                self.push_str(text);
                match postfix {
                    Some(p) => {
                        self.push_str(p);
                    },
                    None => {},
                }
                assert(self@.value =~= before + (opt_str(prefix) + text@ + opt_str(postfix)));
                true
            },
            None => false,
        }
    }
}

/// The text of an optional string slice: empty where there is none.
pub open spec fn opt_str(o: Option<&str>) -> Seq<char> {
    match o {
        Some(s) => s@,
        None => Seq::empty(),
    }
}

} // verus!
