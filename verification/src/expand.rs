//! The set of outline nodes that are expanded.

use vstd::prelude::*;
use vstd::string::*;
use crate::text::same_text;

verus! {

/// The identities of the outline nodes that are currently expanded. It is
/// kept apart from the selection.
#[derive(Debug, Clone)]
pub struct ExpandState {
    ids: Vec<String>,
}

impl View for ExpandState {
    type V = Set<Seq<char>>;

    closed spec fn view(&self) -> Set<Seq<char>> {
        Set::new(|id: Seq<char>| exists|i: int| 0 <= i < self.ids.len() && self.ids[i]@ == id)
    }
}

impl ExpandState {
    /// The empty set.
    pub fn new() -> (s: ExpandState)
        ensures
            s@ == Set::<Seq<char>>::empty(),
    {
        let s = ExpandState { ids: Vec::new() };
        assert(s@ =~= Set::<Seq<char>>::empty());
        s
    }

    /// Whether `id` is expanded.
    pub fn contains(&self, id: &str) -> (found: bool)
        ensures
            found == self@.contains(id@),
    {
        let mut i: usize = 0;
        while i < self.ids.len()
            invariant
                i <= self.ids.len(),
                forall|j: int| 0 <= j < i ==> self.ids[j]@ != id@,
            decreases self.ids.len() - i,
        {
            if same_text(self.ids[i].as_str(), id) {
                return true;
            }
            i += 1;
        }
        false
    }

    /// Marks `id` as expanded. Returns whether it was not expanded before.
    pub fn insert(&mut self, id: String) -> (added: bool)
        ensures
            final(self)@ == old(self)@.insert(id@),
            added == !old(self)@.contains(id@),
    {
        if self.contains(id.as_str()) {
            assert(self@ =~= old(self)@.insert(id@));
            return false;
        }
        let ghost before = self.ids@;
        self.ids.push(id);
        assert(self@ =~= old(self)@.insert(id@)) by {
            assert forall|s: Seq<char>| self@.contains(s) implies old(self)@.insert(id@).contains(
                s,
            ) by {
                let i = choose|i: int| 0 <= i < self.ids.len() && self.ids[i]@ == s;
                if i < before.len() {
                    assert(before[i]@ == s);
                }
            }
            assert forall|s: Seq<char>| old(self)@.insert(id@).contains(s) implies self@.contains(
                s,
            ) by {
                if s == id@ {
                    assert(self.ids[before.len() as int]@ == s);
                } else {
                    let i = choose|i: int| 0 <= i < before.len() && before[i]@ == s;
                    assert(self.ids[i]@ == s);
                }
            }
        }
        true
    }

    /// Marks `id` as collapsed. Returns whether it was expanded before.
    pub fn remove(&mut self, id: &str) -> (removed: bool)
        ensures
            final(self)@ == old(self)@.remove(id@),
            removed == old(self)@.contains(id@),
    {
        let mut kept: Vec<String> = Vec::new();
        let mut removed = false;
        let ghost mut origin: Seq<int> = Seq::empty();
        let ghost mut target: Seq<int> = Seq::empty();
        let mut i: usize = 0;
        while i < self.ids.len()
            invariant
                i <= self.ids.len(),
                self.ids == old(self).ids,
                origin.len() == kept.len(),
                target.len() == i,
                forall|k: int|
                    0 <= k < kept.len() ==> 0 <= #[trigger] origin[k] < i && kept[k]@
                        == self.ids[origin[k]]@ && kept[k]@ != id@,
                forall|j: int|
                    0 <= j < i && self.ids[j]@ != id@ ==> 0 <= #[trigger] target[j] < kept.len()
                        && kept[target[j]]@ == self.ids[j]@,
                removed == (exists|j: int| 0 <= j < i && self.ids[j]@ == id@),
            decreases self.ids.len() - i,
        {
            if same_text(self.ids[i].as_str(), id) {
                removed = true;
                proof {
                    target = target.push(-1);
                }
            } else {
                kept.push(self.ids[i].clone());
                proof {
                    origin = origin.push(i as int);
                    target = target.push(kept.len() - 1);
                }
            }
            i += 1;
        }
        self.ids = kept;
        assert(self@ =~= old(self)@.remove(id@)) by {
            assert forall|s: Seq<char>| self@.contains(s) implies old(self)@.remove(id@).contains(
                s,
            ) by {
                let k = choose|k: int| 0 <= k < self.ids.len() && self.ids[k]@ == s;
                assert(old(self).ids[origin[k]]@ == s);
            }
            assert forall|s: Seq<char>| old(self)@.remove(id@).contains(s) implies self@.contains(
                s,
            ) by {
                let j = choose|j: int| 0 <= j < old(self).ids.len() && old(self).ids[j]@ == s;
                assert(self.ids[target[j]]@ == s);
            }
        }
        removed
    }

    /// Collapses every node.
    pub fn clear(&mut self)
        ensures
            final(self)@ == Set::<Seq<char>>::empty(),
    {
        self.ids = Vec::new();
        assert(self@ =~= Set::<Seq<char>>::empty());
    }

    /// The expanded identities, each at least once, in no particular order.
    pub fn to_vec(&self) -> (ids: Vec<String>)
        ensures
            forall|i: int| 0 <= i < ids.len() ==> self@.contains(#[trigger] ids[i]@),
            forall|id: Seq<char>|
                self@.contains(id) ==> exists|i: int| 0 <= i < ids.len() && #[trigger] ids[i]@ == id,
    {
        let mut ids: Vec<String> = Vec::new();
        let mut i: usize = 0;
        while i < self.ids.len()
            invariant
                i <= self.ids.len(),
                ids.len() == i,
                forall|j: int| 0 <= j < i ==> (#[trigger] ids[j])@ == self.ids[j]@,
            decreases self.ids.len() - i,
        {
            ids.push(self.ids[i].clone());
            i += 1;
        }
        assert forall|k: int| 0 <= k < ids.len() implies self@.contains(#[trigger] ids[k]@) by {
            assert(self.ids[k]@ == ids[k]@);
        }
        assert forall|id: Seq<char>| self@.contains(id) implies exists|k: int|
            0 <= k < ids.len() && #[trigger] ids[k]@ == id by {
            let j = choose|j: int| 0 <= j < self.ids.len() && self.ids[j]@ == id;
            assert(ids[j]@ == id);
        }
        ids
    }
}

} // verus!
