//! A set of string ids that remembers insertion order.

use vstd::prelude::*;

use crate::id_list::{contains_id, push_unique, retain_other, views, without, lemma_without_contains};

verus! {

broadcast use vstd::seq_lib::group_seq_properties;

/// A set of ids; iteration follows the order in which ids were first added.
#[derive(Clone, Debug)]
pub struct IdSet {
    ids: Vec<String>,
}

impl View for IdSet {
    type V = Set<Seq<char>>;

    closed spec fn view(&self) -> Set<Seq<char>> {
        views(self.ids@).to_set()
    }
}

impl Default for IdSet {
    fn default() -> (r: Self)
        ensures
            r@ == Set::<Seq<char>>::empty(),
    {
        Self::new()
    }
}

impl IdSet {
    /// The ids in the order they were first added.
    pub closed spec fn order(&self) -> Seq<Seq<char>> {
        views(self.ids@)
    }

    /// The set holds exactly the ids of its order.
    pub proof fn lemma_order(&self)
        ensures
            self@ == self.order().to_set(),
    {
    }

    /// An empty set.
    pub fn new() -> (r: Self)
        ensures
            r@ == Set::<Seq<char>>::empty(),
            r.order() == Seq::<Seq<char>>::empty(),
    {
        let r = IdSet { ids: Vec::new() };
        assert(r.order() =~= Seq::<Seq<char>>::empty());
        assert(r@ =~= Set::<Seq<char>>::empty());
        r
    }

    /// Whether `id` is in the set.
    pub fn contains(&self, id: &str) -> (r: bool)
        ensures
            r == self@.contains(id@),
    {
        contains_id(&self.ids, id)
    }

    /// Adds `id`; a new id goes to the end of the order.
    pub fn insert(&mut self, id: &str)
        ensures
            final(self)@ == old(self)@.insert(id@),
            final(self).order() == if old(self)@.contains(id@) {
                old(self).order()
            } else {
                old(self).order().push(id@)
            },
    {
        push_unique(&mut self.ids, id);
        proof {
            assert(self@ =~= old(self)@.insert(id@));
        }
    }

    /// Removes `id`.
    pub fn remove(&mut self, id: &str)
        ensures
            final(self)@ == old(self)@.remove(id@),
            final(self).order() == without(old(self).order(), id@),
    {
        retain_other(&mut self.ids, id);
        proof {
            assert forall|y: Seq<char>| self@.contains(y) == old(self)@.remove(id@).contains(y) by {
                lemma_without_contains(old(self).order(), id@, y);
            }
            assert(self@ =~= old(self)@.remove(id@));
        }
    }

    /// Removes every id.
    pub fn clear(&mut self)
        ensures
            final(self)@ == Set::<Seq<char>>::empty(),
            final(self).order() == Seq::<Seq<char>>::empty(),
    {
        self.ids = Vec::new();
        proof {
            assert(self.order() =~= Seq::<Seq<char>>::empty());
            assert(self@ =~= Set::<Seq<char>>::empty());
        }
    }

    /// The id added first among those still present.
    pub fn first(&self) -> (r: Option<&String>)
        ensures
            match r {
                Some(s) => self.order().len() > 0 && s@ == self.order()[0],
                None => self.order().len() == 0 && self@ == Set::<Seq<char>>::empty(),
            },
    {
        if self.ids.len() == 0 {
            assert(self@ =~= Set::<Seq<char>>::empty());
            None
        } else {
            Some(&self.ids[0])
        }
    }

    /// Whether the set is empty.
    pub fn is_empty(&self) -> (r: bool)
        ensures
            r == (self@ == Set::<Seq<char>>::empty()),
    {
        if self.ids.len() == 0 {
            assert(self@ =~= Set::<Seq<char>>::empty());
            true
        } else {
            assert(self@.contains(self.order()[0]));
            false
        }
    }
}

} // verus!
