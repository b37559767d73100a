//! A construct-once cell: the lazily created worker pool lives behind one of
//! these, shared by every clone of a handle lineage.
//!
//! The contract is the one the bridge depends on: however many first-time
//! callers ask, the constructor runs at most once; once a value is published,
//! every later caller reads that same value and the cell never changes again.
//! A ghost construction counter makes the at-most-once claim a checked
//! invariant rather than a comment.

use vstd::prelude::*;

verus! {

/// A cell that is empty until its first `get_or_init`, and from then on
/// holds the one value that call constructed.
pub struct LazyInit<T> {
    slot: Option<T>,
    built: Ghost<int>,
}

impl<T> LazyInit<T> {
    /// Whether a value has been published.
    pub closed spec fn is_initialized(self) -> bool {
        self.slot is Some
    }

    /// The published value.
    pub closed spec fn value(self) -> T
        recommends
            self.is_initialized(),
    {
        self.slot->0
    }

    /// How many times a constructor has run against this cell.
    pub closed spec fn constructions(self) -> int {
        self.built@
    }

    /// The cell's invariant: the constructor has run exactly once if a value
    /// is published, and never otherwise.
    pub open spec fn wf(self) -> bool {
        self.constructions() == if self.is_initialized() {
            1int
        } else {
            0int
        }
    }

    /// An empty cell: nothing published, no construction yet.
    pub fn new() -> (r: Self)
        ensures
            r.wf(),
            !r.is_initialized(),
            r.constructions() == 0,
    {
        LazyInit { slot: None, built: Ghost(0) }
    }

    /// Whether a value has been published.
    pub fn initialized(&self) -> (b: bool)
        ensures
            b == self.is_initialized(),
    {
        self.slot.is_some()
    }

    /// Reads the published value without initializing: the wait-free read
    /// path of callers who are not the constructing caller.
    pub fn borrow(&self) -> (r: Option<&T>)
        ensures
            self.is_initialized() ==> (r matches Option::Some(v) && *v == self.value()),
            !self.is_initialized() ==> r is None,
    {
        match &self.slot {
            Some(value) => Some(value),
            None => None,
        }
    }

    /// Returns the published value, constructing it with `f` only if the
    /// cell is still empty. A cell that already holds a value is left
    /// untouched: the constructor does not run again, and the caller reads
    /// the value the first caller published.
    pub fn get_or_init<F: FnOnce() -> T>(&mut self, f: F) -> (r: &T)
        requires
            old(self).wf(),
            call_requires(f, ()),
        ensures
            final(self).wf(),
            final(self).is_initialized(),
            final(self).constructions() == 1,
            *r == final(self).value(),
            old(self).is_initialized() ==> *final(self) == *old(self),
            !old(self).is_initialized() ==> call_ensures(f, (), final(self).value()),
    {
        if self.slot.is_none() {
            let value = f();
            self.slot = Some(value);
            self.built = Ghost(self.built@ + 1);
        }
        match &self.slot {
            Some(value) => value,
            None => unreached(),
        }
    }

    /// Construct-once law: under the cell's invariant the constructor has
    /// run at most once, whatever sequence of calls led here.
    pub proof fn lemma_construct_once(self)
        requires
            self.wf(),
        ensures
            self.constructions() <= 1,
    {
    }
}

} // verus!
