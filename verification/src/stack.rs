//! A rollback-capable ordered container: an element sequence plus a sequence
//! of scope boundaries.  Each nested call opens a scope with `enter`; the
//! elements pushed inside it are kept by `commit` and dropped by `discard`,
//! so a reverted inner call never leaks its records into the enclosing one.

use vstd::prelude::*;

verus! {

pub struct Stack<T> {
    stack: Vec<T>,
    boundaries: Vec<usize>,
}

impl<T> Stack<T> {
    /// The element sequence accumulated so far.
    pub closed spec fn elems(self) -> Seq<T> {
        self.stack@
    }

    /// The scope boundaries, oldest first; each is an index into the
    /// element sequence at which its scope was opened.
    pub closed spec fn bounds(self) -> Seq<usize> {
        self.boundaries@
    }

    /// Boundaries are non-decreasing and never point past the element count.
    /// In particular the most recent boundary is at most the element count.
    pub open spec fn wf(self) -> bool {
        &&& forall|i: int, j: int|
            0 <= i <= j < self.bounds().len() ==> self.bounds()[i] <= self.bounds()[j]
        &&& forall|i: int| 0 <= i < self.bounds().len() ==> self.bounds()[i] <= self.elems().len()
    }

    /// Whether a scope is open, i.e. `commit` and `discard` have a boundary
    /// to pop.  A fresh stack has one, the outermost, at position zero.
    pub open spec fn has_open_scope(self) -> bool {
        self.bounds().len() > 0
    }

    pub fn new() -> (s: Self)
        ensures
            s.wf(),
            s.elems() == Seq::<T>::empty(),
            s.bounds() == seq![0usize],
    {
        let mut boundaries: Vec<usize> = Vec::new();
        boundaries.push(0);
        assert(boundaries@ =~= seq![0usize]);
        Self { stack: Vec::new(), boundaries }
    }

    /// Open a new scope at the current element count.
    pub fn enter(&mut self)
        requires
            old(self).wf(),
        ensures
            final(self).wf(),
            final(self).elems() == old(self).elems(),
            final(self).bounds() == old(self).bounds().push(old(self).elems().len() as usize),
    {
        let len = self.stack.len();
        self.boundaries.push(len);
        proof {
            let nb = self.bounds();
            let ob = old(self).bounds();
            assert(nb == ob.push(old(self).elems().len() as usize));
            assert forall|i: int, j: int| 0 <= i <= j < nb.len() implies nb[i] <= nb[j] by {
                if j < ob.len() {
                    assert(ob[i] <= ob[j]);
                } else if i < ob.len() {
                    assert(ob[i] <= old(self).elems().len());
                }
            }
        }
    }

    /// Append an element to the current scope.
    pub fn push(&mut self, value: T)
        requires
            old(self).wf(),
        ensures
            final(self).wf(),
            final(self).elems() == old(self).elems().push(value),
            final(self).bounds() == old(self).bounds(),
    {
        self.stack.push(value);
        proof {
            let nb = self.bounds();
            assert(nb == old(self).bounds());
            assert forall|i: int| 0 <= i < nb.len() implies nb[i] <= self.elems().len() by {
                assert(old(self).bounds()[i] <= old(self).elems().len());
            }
        }
    }

    /// Close the most recent scope, keeping everything pushed since it:
    /// the inner scope's elements merge into the enclosing one.
    pub fn commit(&mut self)
        requires
            old(self).wf(),
            old(self).has_open_scope(),
        ensures
            final(self).wf(),
            final(self).elems() == old(self).elems(),
            final(self).bounds() == old(self).bounds().drop_last(),
    {
        self.boundaries.pop();
        assert(self.boundaries@ =~= old(self).bounds().drop_last());
    }

    /// Close the most recent scope and drop every element pushed since it.
    pub fn discard(&mut self)
        requires
            old(self).wf(),
            old(self).has_open_scope(),
        ensures
            final(self).wf(),
            final(self).elems() == old(self).elems().take(old(self).bounds().last() as int),
            final(self).bounds() == old(self).bounds().drop_last(),
    {
        let boundary = self.boundaries.pop().unwrap();
        assert(self.boundaries@ =~= old(self).bounds().drop_last());
        self.stack.truncate(boundary);
        assert(self.stack@ =~= old(self).elems().take(old(self).bounds().last() as int));
    }

    /// Unwinds after a fatal abort: closes every open scope, discarding
    /// everything pushed since the first boundary.  No partial effects
    /// survive.
    pub fn discard_all(&mut self)
        requires
            old(self).wf(),
        ensures
            final(self).wf(),
            !final(self).has_open_scope(),
            old(self).has_open_scope() ==> final(self).elems() == old(self).elems().take(
                old(self).bounds()[0] as int,
            ),
            !old(self).has_open_scope() ==> final(self).elems() == old(self).elems(),
    {
        let ghost orig = *old(self);
        while self.boundaries.len() > 0
            invariant
                self.wf(),
                orig.wf(),
                self.bounds().len() <= orig.bounds().len(),
                self.bounds() == orig.bounds().take(self.bounds().len() as int),
                self.bounds().len() == orig.bounds().len() ==> self.elems() == orig.elems(),
                self.bounds().len() < orig.bounds().len() ==> self.elems() == orig.elems().take(
                    orig.bounds()[self.bounds().len() as int] as int,
                ),
            decreases self.boundaries.len(),
        {
            proof {
                assert(self.bounds().last() == orig.bounds()[self.bounds().len() - 1]);
            }
            let ghost before = *self;
            self.discard();
            proof {
                let k = self.bounds().len() as int;
                assert(self.bounds() =~= orig.bounds().take(k));
                if k < orig.bounds().len() {
                    assert(orig.bounds()[k] <= before.bounds().last());
                    assert(self.elems() =~= orig.elems().take(orig.bounds()[k] as int));
                }
            }
        }
    }

    /// Consume the stack, returning the final element sequence.
    pub fn into_vec(self) -> (v: Vec<T>)
        ensures
            v@ == self.elems(),
    {
        self.stack
    }

    /// The accumulated elements, for inspection.
    pub fn elements(&self) -> (v: &Vec<T>)
        ensures
            v@ == self.elems(),
    {
        &self.stack
    }

    /// The open scope boundaries, for inspection.
    pub fn boundary_indices(&self) -> (v: &Vec<usize>)
        ensures
            v@ == self.bounds(),
    {
        &self.boundaries
    }
}

} // verus!
