//! Sets of strings.

use vstd::prelude::*;
use vstd::string::*;
use crate::types::string_map::StringMap;

verus! {

/// A finite set of strings.
#[derive(Debug)]
pub struct StringSet {
    members: StringMap<()>,
}

impl View for StringSet {
    type V = Set<Seq<char>>;

    closed spec fn view(&self) -> Set<Seq<char>> {
        self.members@.dom()
    }
}

impl StringSet {
    /// The empty set.
    pub fn new() -> (set: Self)
        ensures
            set@ == Set::<Seq<char>>::empty(),
    {
        let set = StringSet { members: StringMap::new() };
        assert(set@ =~= Set::empty());
        set
    }

    /// The number of members.
    pub fn len(&self) -> (count: usize)
        ensures
            self@.finite(),
            count == self@.len(),
    {
        self.members.len()
    }

    /// Whether `member` is in the set.
    pub fn contains(&self, member: &str) -> (found: bool)
        ensures
            found == self@.contains(member@),
    {
        self.members.contains_key(member)
    }

    /// Adds `member`; one that is there already changes nothing.
    pub fn insert(&mut self, member: String)
        ensures
            final(self)@ == old(self)@.insert(member@),
    {
        self.members.insert(member, ());
        assert(self@ =~= old(self)@.insert(member@));
    }

    /// Takes `member` out; one that is not there changes nothing.
    pub fn remove(&mut self, member: &str)
        ensures
            final(self)@ == old(self)@.remove(member@),
    {
        self.members.remove(member);
        assert(self@ =~= old(self)@.remove(member@));
    }
}

impl Clone for StringSet {
    fn clone(&self) -> (copy: Self)
        ensures
            copy@ == self@,
    {
        let keys = self.members.keys();
        let mut copy = StringSet::new();
        let mut i: usize = 0;
        while i < keys.len()
            invariant
                i <= keys.len(),
                forall|j: int| 0 <= j < keys.len() ==> self@.contains((#[trigger] keys[j])@),
                forall|j: int| 0 <= j < i ==> copy@.contains((#[trigger] keys[j])@),
                copy@.subset_of(self@),
            decreases keys.len() - i,
        {
            copy.insert(keys[i].clone());
            i += 1;
        }
        assert(copy@ =~= self@);
        copy
    }
}

} // verus!
