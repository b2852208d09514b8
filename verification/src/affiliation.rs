//! Persons that are affiliated with an entry in a role, and additions to an
//! entry that is being built.

use crate::entry::Entry;
use crate::fields::Fields;
use crate::types::{persons_view, Person, PersonRole, PersonsWithRoles, RoleView};
use vstd::prelude::*;

verus! {

/// The persons of the first `n` groups that have the given role, group by
/// group and, within a group, in the order of the group.
pub open spec fn role_members(groups: Seq<PersonsWithRoles>, role: RoleView, n: int) -> Seq<Person>
    decreases n,
{
    if n <= 0 || n > groups.len() {
        Seq::empty()
    } else if groups[n - 1].role@ == role {
        role_members(groups, role, n - 1) + groups[n - 1].names@
    } else {
        role_members(groups, role, n - 1)
    }
}

/// The persons that are affiliated with the entry in the given role; none
/// where the entry has no `affiliated` field.
pub open spec fn affiliated_in(e: Entry, role: RoleView) -> Seq<Person> {
    match e.fields.affiliated {
        Some(groups) => role_members(groups@, role, groups@.len() as int),
        None => Seq::empty(),
    }
}

/// The persons that a buffer of references points to.
pub open spec fn persons_at(refs: Seq<&Person>) -> Seq<Person> {
    refs.map_values(|p: &Person| *p)
}

impl Entry {
    /// The persons that are affiliated with the entry in the given role.
    pub fn affiliates<'a>(&'a self, role: &PersonRole) -> (r: Vec<&'a Person>)
        ensures
            persons_at(r@) == affiliated_in(*self, role@),
    {
        let mut r: Vec<&'a Person> = Vec::new();
        match &self.fields.affiliated {
            Some(groups) => {
                let mut n: usize = 0;
                while n < groups.len()
                    invariant
                        n <= groups.len(),
                        persons_at(r@) == role_members(groups@, role@, n as int),
                    decreases groups.len() - n,
                {
                    let group = &groups[n];
                    if group.role.same(role) {
                        let ghost before = persons_at(r@);
                        let mut i: usize = 0;
                        while i < group.names.len()
                            invariant
                                i <= group.names.len(),
                                r@.len() == before.len() + i,
                                forall|j: int| 0 <= j < before.len() ==> *r@[j] == before[j],
                                forall|j: int|
                                    0 <= j < i ==> *r@[before.len() + j] == group.names@[j],
                            decreases group.names.len() - i,
                        {
                            r.push(&group.names[i]);
                            i += 1;
                        }
                        assert(persons_at(r@) =~= before + group.names@);
                    }
                    n += 1;
                }
                r
            },
            None => {
                assert(persons_at(r@) =~= Seq::<Person>::empty());
                r
            },
        }
    }

    /// Copies of the persons that are affiliated with the entry in the given
    /// role.
    pub fn affiliated_with_role(&self, role: PersonRole) -> (r: Vec<Person>)
        ensures
            persons_view(r@) == persons_view(affiliated_in(*self, role@)),
    {
        let found = self.affiliates(&role);
        let mut r: Vec<Person> = Vec::new();
        let mut i: usize = 0;
        while i < found.len()
            invariant
                i <= found.len(),
                r@.len() == i,
                forall|j: int| 0 <= j < i ==> r@[j]@ == found@[j]@,
            decreases found.len() - i,
        {
            r.push(found[i].clone());
            i += 1;
        }
        assert(persons_view(r@) =~= persons_view(persons_at(found@)));
        r
    }

    /// Adds a parent after the parents that the entry has.
    pub fn add_parent(&mut self, entry: Entry)
        ensures
            final(self).parents@ == old(self).parents@.push(entry),
            final(self).key == old(self).key,
            final(self).entry_type == old(self).entry_type,
            final(self).fields == old(self).fields,
    {
        self.parents.push(entry);
    }

    /// The parents of the entry, for changes in place.
    pub fn parents_mut(&mut self) -> (r: &mut Vec<Entry>)
        ensures
            *r == old(self).parents,
            *final(self) == (Entry { parents: *final(r), ..*old(self) }),
    {
        &mut self.parents
    }

    /// Adds persons that are affiliated in a role, after the groups that the
    /// entry has. The `affiliated` field is created where the entry has none.
    pub fn add_affiliated_persons(&mut self, new_persons: (Vec<Person>, PersonRole))
        ensures
            final(self).fields.affiliated is Some,
            final(self).fields.affiliated->0@ == (match old(self).fields.affiliated {
                Some(groups) => groups@,
                None => Seq::empty(),
            }).push(PersonsWithRoles { names: new_persons.0, role: new_persons.1 }),
            final(self).fields == (Fields {
                affiliated: final(self).fields.affiliated,
                ..old(self).fields
            }),
            final(self).key == old(self).key,
            final(self).entry_type == old(self).entry_type,
            final(self).parents == old(self).parents,
    {
        let group = PersonsWithRoles { names: new_persons.0, role: new_persons.1 };
        let mut groups = match self.fields.affiliated.take() {
            Some(groups) => groups,
            None => Vec::new(),
        };
        groups.push(group);
        self.fields.affiliated = Some(groups);
    }
}

} // verus!
