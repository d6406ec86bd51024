//! Generational arenas: flat stores of graph elements addressed by stable
//! identifiers, so that nodes and slots can reference each other by value
//! instead of by pointer.

use vstd::prelude::*;

verus! {

/// Identifier of an arena element: the index of its cell paired with the
/// generation the cell had when the element was inserted. Removing an
/// element advances its cell's generation, so an identifier that was valid
/// once never becomes valid again after its element is removed.
#[derive(Clone, Copy, PartialEq, Eq, Structural, Debug)]
pub struct ElementId {
    pub index: usize,
    pub generation: u64,
}

/// One cell of an arena: its current generation and, when occupied, an element.
pub struct ArenaCell<T> {
    pub generation: u64,
    pub value: Option<T>,
}

/// A generational arena. Freed cells may be reused, but only under a fresh
/// generation, which is what lets a reader detect a stale identifier.
pub struct Arena<T> {
    pub cells: Vec<ArenaCell<T>>,
}

impl<T> Arena<T> {
    /// Whether `id` refers to a live element of this arena.
    pub open spec fn contains(self, id: ElementId) -> bool {
        &&& id.index < self.cells@.len()
        &&& self.cells@[id.index as int].generation == id.generation
        &&& self.cells@[id.index as int].value is Some
    }

    /// The element that `id` refers to.
    pub open spec fn spec_get(self, id: ElementId) -> T
        recommends
            self.contains(id),
    {
        self.cells@[id.index as int].value->Some_0
    }

    pub fn new() -> (a: Arena<T>)
        ensures
            a.cells@.len() == 0,
            forall|id: ElementId| !a.contains(id),
    {
        Arena { cells: Vec::new() }
    }

    /// Look an element up; `None` exactly when `id` is out of range, stale,
    /// or points at a freed cell.
    pub fn get(&self, id: ElementId) -> (r: Option<&T>)
        ensures
            r is Some <==> self.contains(id),
            r matches Some(t) ==> *t == self.spec_get(id),
    {
        if id.index < self.cells.len() {
            let cell = &self.cells[id.index];
            if cell.generation == id.generation {
                match &cell.value {
                    Some(t) => Some(t),
                    None => None,
                }
            } else {
                None
            }
        } else {
            None
        }
    }

    /// Insert an element, reusing a freed cell when one is available.
    /// The identifier handed back was not valid before the call, and every
    /// other identifier keeps its meaning.
    pub fn insert(&mut self, value: T) -> (id: ElementId)
        ensures
            final(self).contains(id),
            final(self).spec_get(id) == value,
            !old(self).contains(id),
            forall|id2: ElementId|
                id2 != id ==> final(self).contains(id2) == old(self).contains(id2),
            forall|id2: ElementId|
                id2 != id && old(self).contains(id2) ==> final(self).spec_get(id2) == old(
                    self,
                ).spec_get(id2),
            old(self).cells@.len() <= final(self).cells@.len(),
    {
        let n = self.cells.len();
        let mut i: usize = 0;
        while i < n
            invariant
                i <= n,
                n == self.cells@.len(),
                *self == *old(self),
            decreases n - i,
        {
            if self.cells[i].value.is_none() && self.cells[i].generation < u64::MAX {
                let g = self.cells[i].generation;
                self.cells.set(i, ArenaCell { generation: g, value: Some(value) });
                return ElementId { index: i, generation: g };
            }
            i += 1;
        }
        self.cells.push(ArenaCell { generation: 0, value: Some(value) });
        ElementId { index: n, generation: 0 }
    }

    /// Remove the element `id` refers to, if it is live. Its cell's
    /// generation advances, so `id` stays invalid from here on; every other
    /// identifier keeps its meaning.
    pub fn remove(&mut self, id: ElementId)
        ensures
            !final(self).contains(id),
            forall|id2: ElementId|
                id2 != id ==> final(self).contains(id2) == old(self).contains(id2),
            forall|id2: ElementId|
                id2 != id && old(self).contains(id2) ==> final(self).spec_get(id2) == old(
                    self,
                ).spec_get(id2),
            final(self).cells@.len() == old(self).cells@.len(),
            !old(self).contains(id) ==> *final(self) == *old(self),
    {
        if id.index < self.cells.len() {
            let g = self.cells[id.index].generation;
            let alive = self.cells[id.index].value.is_some();
            if g == id.generation && alive {
                let bumped: u64 = if g < u64::MAX {
                    g + 1
                } else {
                    g
                };
                self.cells.set(id.index, ArenaCell { generation: bumped, value: None });
            }
        }
    }
}

} // verus!
