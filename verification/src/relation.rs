//! Kind relations between an entry and its parents: a required kind for the
//! entry, a required kind for one parent, and the position of the one parent
//! that qualifies.

use crate::entry::{entries_view, Entry, EntryView};
use crate::kind::EntryType;
use vstd::prelude::*;

verus! {

/// A requirement on the kind of an entry.
#[derive(Debug, PartialEq, Eq)]
pub enum EntryTypeModality {
    /// The kind must be this one.
    Specific(EntryType),
    /// The kind must be one of these.
    Alternate(Vec<EntryType>),
    /// Any kind will do.
    Any,
}

/// A requirement on the kind of an entry, as a mathematical value.
pub enum ModalityView {
    /// The kind must be this one.
    Specific(EntryType),
    /// The kind must be one of these.
    Alternate(Seq<EntryType>),
    /// Any kind will do.
    Any,
}

impl ModalityView {
    /// Whether the requirement admits the kind.
    pub open spec fn admits(self, t: EntryType) -> bool {
        match self {
            ModalityView::Specific(s) => t == s,
            ModalityView::Alternate(v) => v.contains(t),
            ModalityView::Any => true,
        }
    }
}

impl View for EntryTypeModality {
    type V = ModalityView;

    open spec fn view(&self) -> ModalityView {
        match self {
            EntryTypeModality::Specific(s) => ModalityView::Specific(*s),
            EntryTypeModality::Alternate(v) => ModalityView::Alternate(v@),
            EntryTypeModality::Any => ModalityView::Any,
        }
    }
}

impl EntryTypeModality {
    /// Whether the requirement admits the kind.
    pub fn admits(&self, t: EntryType) -> (r: bool)
        ensures
            r == self@.admits(t),
    {
        match self {
            EntryTypeModality::Specific(s) => t == *s,
            EntryTypeModality::Alternate(v) => {
                let mut i: usize = 0;
                while i < v.len()
                    invariant
                        i <= v.len(),
                        self@ == ModalityView::Alternate(v@),
                        forall|j: int| 0 <= j < i ==> v@[j] != t,
                    decreases v.len() - i,
                {
                    if v[i] == t {
                        assert(v@[i as int] == t);
                        return true;
                    }
                    i += 1;
                }
                false
            },
            EntryTypeModality::Any => true,
        }
    }
}

/// A kind relation: what the entry must be, and what the one parent that
/// qualifies must be.
#[derive(Debug, PartialEq, Eq)]
pub struct EntryTypeSpec {
    /// The requirement on the entry itself.
    pub here: EntryTypeModality,
    /// The requirement on the qualifying parent.
    pub parent: EntryTypeModality,
}

/// A kind relation as a mathematical value.
pub struct SpecView {
    /// The requirement on the entry itself.
    pub here: ModalityView,
    /// The requirement on the qualifying parent.
    pub parent: ModalityView,
}

impl View for EntryTypeSpec {
    type V = SpecView;

    open spec fn view(&self) -> SpecView {
        SpecView { here: self.here@, parent: self.parent@ }
    }
}

impl EntryTypeSpec {
    /// The relation between an entry that meets `here` and its single parent
    /// that meets `parent`.
    pub fn single_parent(here: EntryTypeModality, parent: EntryTypeModality) -> (r: EntryTypeSpec)
        ensures
            r@ == (SpecView { here: here@, parent: parent@ }),
    {
        EntryTypeSpec { here, parent }
    }
}

/// Why an entry does not stand in a kind relation.
#[derive(Clone, Copy, Debug, PartialEq, Eq, Hash)]
pub enum RelationError {
    /// The entry itself is not of a required kind.
    WrongType,
    /// No parent is of a required kind.
    NoParent,
    /// More than one parent is of a required kind.
    AmbiguousParent,
}

/// The positions, among the first `n` of `ps`, of the parents whose kind the
/// requirement admits, in increasing order.
pub open spec fn qualifying(ps: Seq<EntryView>, m: ModalityView, n: int) -> Seq<int>
    decreases n,
{
    if n <= 0 || n > ps.len() {
        Seq::empty()
    } else if m.admits(ps[n - 1].entry_type) {
        qualifying(ps, m, n - 1).push(n - 1)
    } else {
        qualifying(ps, m, n - 1)
    }
}

/// The position of the one parent that qualifies under the relation, or the
/// reason why there is no such position.
pub open spec fn related_parent(e: EntryView, s: SpecView) -> Result<int, RelationError> {
    let found = qualifying(e.parents, s.parent, e.parents.len() as int);
    if !s.here.admits(e.entry_type) {
        Err(RelationError::WrongType)
    } else if found.len() == 0 {
        Err(RelationError::NoParent)
    } else if found.len() == 1 {
        Ok(found[0])
    } else {
        Err(RelationError::AmbiguousParent)
    }
}

/// Positions that qualify are positions of parents that the requirement
/// admits, and every such position qualifies.
pub proof fn lemma_qualifying(ps: Seq<EntryView>, m: ModalityView, n: int)
    requires
        0 <= n <= ps.len(),
    ensures
        forall|k: int|
            0 <= k < qualifying(ps, m, n).len() ==> {
                &&& 0 <= #[trigger] qualifying(ps, m, n)[k] < n
                &&& m.admits(ps[qualifying(ps, m, n)[k]].entry_type)
            },
        forall|i: int|
            0 <= i < n && m.admits((#[trigger] ps[i]).entry_type) ==> qualifying(ps, m, n).contains(
                i,
            ),
    decreases n,
{
    if n > 0 {
        lemma_qualifying(ps, m, n - 1);
        let before = qualifying(ps, m, n - 1);
        let all = qualifying(ps, m, n);
        assert forall|i: int| 0 <= i < n && m.admits((#[trigger] ps[i]).entry_type) implies all.contains(
            i,
        ) by {
            if i < n - 1 {
                assert(before.contains(i));
                let k = choose|k: int| 0 <= k < before.len() && before[k] == i;
                assert(all[k] == i);
            } else {
                assert(all[all.len() - 1] == i);
            }
        }
    }
}

impl Entry {
    /// Checks the entry against a kind relation: the position of the one
    /// parent that qualifies, or the reason why there is none.
    pub fn check_with_spec(&self, spec: &EntryTypeSpec) -> (r: Result<usize, RelationError>)
        ensures
            match r {
                Ok(i) => related_parent(self@, spec@) == Ok::<int, RelationError>(i as int) && i
                    < self.parents.len(),
                Err(e) => related_parent(self@, spec@) == Err::<int, RelationError>(e),
            },
    {
        if !spec.here.admits(self.entry_type) {
            return Err(RelationError::WrongType);
        }
        let parents = self.parents();
        let ghost views = entries_view(parents@);
        let mut found: Option<usize> = None;
        let mut many = false;
        let mut i: usize = 0;
        while i < parents.len()
            invariant
                i <= parents.len(),
                views == entries_view(parents@),
                !many ==> match found {
                    Some(k) => qualifying(views, spec@.parent, i as int) == seq![k as int] && k < i,
                    None => qualifying(views, spec@.parent, i as int).len() == 0,
                },
                many ==> found is Some && qualifying(views, spec@.parent, i as int).len() >= 2,
            decreases parents.len() - i,
        {
            assert(views.len() == parents@.len());
            assert(views[i as int].entry_type == parents@[i as int].entry_type);
            assert(qualifying(views, spec@.parent, i as int + 1) == if spec@.parent.admits(
                views[i as int].entry_type,
            ) {
                qualifying(views, spec@.parent, i as int).push(i as int)
            } else {
                qualifying(views, spec@.parent, i as int)
            });
            if spec.parent.admits(parents[i].entry_type) {
                if found.is_some() {
                    many = true;
                } else {
                    found = Some(i);
                    assert(qualifying(views, spec@.parent, i as int + 1) =~= seq![i as int]);
                }
            }
            i += 1;
        }
        if many {
            Err(RelationError::AmbiguousParent)
        } else {
            match found {
                Some(k) => Ok(k),
                None => Err(RelationError::NoParent),
            }
        }
    }
}

} // verus!
