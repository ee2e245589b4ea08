//! Scoped operation handles over a `Vec`.
//!
//! Every handle, and the raw `Vec` itself, implements the sequence capability
//! [`VecScopedPrivate`]: exclusive mutable access to the backing vector. Only
//! the handle constructors and releases in this module use that access;
//! ordinary callers read through [`VecScopedPrivate::current`] instead, so the
//! state a handle saved for its undo stays in step with the vector.
//!
//! A handle takes its target by value and gives it back from `into_inner`,
//! with the mutation undone. Ownership is what enforces the release
//! discipline: a nested handle holds the handle it was applied to, so targets
//! can only come back innermost-first, in reverse creation order. An undo must
//! find the sequence as its operation left it; that condition is a
//! precondition of `into_inner`, checked statically in every caller, so a
//! release can never find the pushed element gone or write to the wrong slot.

use vstd::prelude::*;

use crate::model::{assign_applied, assign_undone, pop_applied, pop_saved, pop_undone,
    push_applied, push_undone};

verus! {

/// The sequence capability: everything that is `VecScoped` has mutable access
/// to the underlying `Vec`. Only the handle constructors and releases in this
/// module should use `vec_mut`; end users could otherwise move the vector out
/// of step with what a live handle saved for its undo.
pub trait VecScopedPrivate: View<V = Seq<<Self as VecScopedPrivate>::Element>> + Sized {
    type Element;

    /// Everything the value holds besides the backing vector's content: for a
    /// raw `Vec` nothing, for a handle whatever it saved in order to invert
    /// its operation, together with the saved state of what it wraps. Access
    /// through `vec_mut` can change only the vector, never this, so a handle
    /// that comes back from a release can still undo its own operation.
    type Saved;

    /// The saved state of the value; see [`VecScopedPrivate::Saved`].
    spec fn saved_state(&self) -> Self::Saved;

    /// Exclusive mutable access to the backing vector. The first clause says
    /// what the vector holds when access is granted; the second says that
    /// whatever the access is used for is what the receiver reflects
    /// afterwards; the third says that the access reaches nothing but the
    /// vector.
    fn vec_mut(&mut self) -> (v: &mut Vec<Self::Element>)
        ensures
            v@ == old(self)@,
            final(self)@ == final(v)@,
            final(self).saved_state() == old(self).saved_state(),
    ;

    /// The read-only view of the current, mutated sequence.
    fn current(&self) -> (v: &[Self::Element])
        ensures
            v@ == self@,
    ;
}

/// A `Vec` or a temporary, scoped modification of one. The methods apply one
/// further scoped operation, consuming the target; the handle they return
/// gives the target back, restored, from its `into_inner`.
pub trait VecScoped: VecScopedPrivate {
    /// Temporarily replace the element at `idx` of the sequence. The index
    /// must be in bounds; `Assign::try_new` reports an out-of-bounds index
    /// instead.
    fn assigned(self, idx: usize, value: Self::Element) -> (r: Assign<Self>)
        requires
            idx < self@.len(),
        ensures
            r@ == assign_applied(self@, idx as int, value),
            r.index() == idx,
            r.saved() == self@[idx as int],
            r.saved_state() == ((self.saved_state(), idx, self@[idx as int])),
    {
        Assign::new(self, value, idx)
    }

    /// Wrap the sequence without changing it, so that a plain `Vec` can stand
    /// where a handle is expected.
    fn nooped(self) -> (r: Noop<Self>)
        ensures
            r@ == self@,
            r.saved_state() == self.saved_state(),
    {
        Noop::new(self)
    }

    /// Temporarily pop the last element from the end of the sequence.
    fn popped(self) -> (r: Pop<Self>)
        ensures
            r@ == pop_applied(self@),
            r.saved() == pop_saved(self@),
            r.saved_state() == ((self.saved_state(), pop_saved(self@))),
    {
        Pop::new(self)
    }

    /// Temporarily push an element onto the end of the sequence.
    fn pushed(self, value: Self::Element) -> (r: Push<Self>)
        ensures
            r@ == push_applied(self@, value),
            r.saved_state() == self.saved_state(),
    {
        Push::new(self, value)
    }
}

impl<T> VecScoped for Vec<T> {}

impl<S: VecScopedPrivate> VecScoped for Push<S> {}

impl<S: VecScopedPrivate> VecScoped for Pop<S> {}

impl<S: VecScopedPrivate> VecScoped for Assign<S> {}

impl<S: VecScopedPrivate> VecScoped for Noop<S> {}

impl<T> VecScopedPrivate for Vec<T> {
    type Element = T;

    type Saved = ();

    closed spec fn saved_state(&self) -> () {
        ()
    }

    fn vec_mut(&mut self) -> (v: &mut Vec<T>) {
        self
    }

    fn current(&self) -> (v: &[T]) {
        self.as_slice()
    }
}

/// A handle representing the sequence with one element appended; see
/// `VecScoped::pushed`. Releasing it removes that element again.
#[must_use]
pub struct Push<S: VecScopedPrivate> {
    inner: S,
}

impl<S: VecScopedPrivate> View for Push<S> {
    type V = Seq<S::Element>;

    closed spec fn view(&self) -> Seq<S::Element> {
        self.inner@
    }
}

impl<S: VecScopedPrivate> VecScopedPrivate for Push<S> {
    type Element = S::Element;

    type Saved = S::Saved;

    closed spec fn saved_state(&self) -> S::Saved {
        self.inner.saved_state()
    }

    fn vec_mut(&mut self) -> (v: &mut Vec<S::Element>) {
        self.inner.vec_mut()
    }

    fn current(&self) -> (v: &[S::Element]) {
        self.inner.current()
    }
}

impl<S: VecScopedPrivate> Push<S> {
    /// Appends `value` to the target's sequence and wraps the target.
    pub fn new(vec_scoped: S, value: S::Element) -> (r: Self)
        ensures
            r@ == push_applied(vec_scoped@, value),
            r.saved_state() == vec_scoped.saved_state(),
    {
        let mut target = vec_scoped;
        let v = target.vec_mut();
        v.push(value);
        Push { inner: target }
    }

    /// Releases the handle: removes the pushed element and returns the
    /// target. The sequence must still end in an element to remove, which
    /// holds whenever every operation nested on this handle has been released
    /// first.
    pub fn into_inner(self) -> (r: S)
        requires
            self@.len() > 0,
        ensures
            r@ == push_undone(self@),
            r.saved_state() == self.saved_state(),
    {
        let Push { inner } = self;
        let mut inner = inner;
        let v = inner.vec_mut();
        let _popped = v.pop();
        inner
    }
}

/// A handle representing the sequence with its last element removed (or the
/// sequence unchanged, if it was already empty); see `VecScoped::popped`.
/// Releasing it appends the removed element back.
#[must_use]
pub struct Pop<S: VecScopedPrivate> {
    inner: S,
    popped: Option<S::Element>,
}

impl<S: VecScopedPrivate> View for Pop<S> {
    type V = Seq<S::Element>;

    closed spec fn view(&self) -> Seq<S::Element> {
        self.inner@
    }
}

impl<S: VecScopedPrivate> VecScopedPrivate for Pop<S> {
    type Element = S::Element;

    type Saved = (S::Saved, Option<S::Element>);

    closed spec fn saved_state(&self) -> (S::Saved, Option<S::Element>) {
        (self.inner.saved_state(), self.popped)
    }

    fn vec_mut(&mut self) -> (v: &mut Vec<S::Element>) {
        self.inner.vec_mut()
    }

    fn current(&self) -> (v: &[S::Element]) {
        self.inner.current()
    }
}

impl<S: VecScopedPrivate> Pop<S> {
    /// The element the pop removed, if the sequence had one.
    pub open spec fn saved(&self) -> Option<S::Element> {
        self.saved_state().1
    }

    /// Removes and captures the target's last element, if any, and wraps the
    /// target. Popping an empty sequence is legal and changes nothing.
    pub fn new(vec_scoped: S) -> (r: Self)
        ensures
            r@ == pop_applied(vec_scoped@),
            r.saved() == pop_saved(vec_scoped@),
            r.saved_state() == ((vec_scoped.saved_state(), pop_saved(vec_scoped@))),
    {
        let mut target = vec_scoped;
        let v = target.vec_mut();
        let popped = v.pop();
        Pop { inner: target, popped }
    }

    /// Releases the handle: appends the captured element back, or does
    /// nothing if the sequence was empty when the handle was made, and
    /// returns the target.
    pub fn into_inner(self) -> (r: S)
        ensures
            r@ == pop_undone(self@, self.saved()),
            r.saved_state() == self.saved_state().0,
    {
        let Pop { inner, popped } = self;
        let mut inner = inner;
        match popped {
            Some(value) => {
                let v = inner.vec_mut();
                v.push(value);
            },
            None => {},
        }
        inner
    }
}

/// A handle representing the sequence with the element at one index replaced;
/// see `VecScoped::assigned`. Releasing it restores the overwritten element.
#[must_use]
pub struct Assign<S: VecScopedPrivate> {
    inner: S,
    idx: usize,
    previous: S::Element,
}

impl<S: VecScopedPrivate> View for Assign<S> {
    type V = Seq<S::Element>;

    closed spec fn view(&self) -> Seq<S::Element> {
        self.inner@
    }
}

impl<S: VecScopedPrivate> VecScopedPrivate for Assign<S> {
    type Element = S::Element;

    type Saved = (S::Saved, usize, S::Element);

    closed spec fn saved_state(&self) -> (S::Saved, usize, S::Element) {
        (self.inner.saved_state(), self.idx, self.previous)
    }

    fn vec_mut(&mut self) -> (v: &mut Vec<S::Element>) {
        self.inner.vec_mut()
    }

    fn current(&self) -> (v: &[S::Element]) {
        self.inner.current()
    }
}

impl<S: VecScopedPrivate> Assign<S> {
    /// The index the assignment replaced at.
    pub open spec fn index(&self) -> usize {
        self.saved_state().1
    }

    /// The element the assignment overwrote.
    pub open spec fn saved(&self) -> S::Element {
        self.saved_state().2
    }

    /// Replaces the element at `idx` by `value`, capturing the old element,
    /// and wraps the target. The index must be in bounds: `try_new` is the
    /// form that reports an out-of-bounds index instead of demanding one in
    /// range.
    pub fn new(vec_scoped: S, value: S::Element, idx: usize) -> (r: Self)
        requires
            idx < vec_scoped@.len(),
        ensures
            r@ == assign_applied(vec_scoped@, idx as int, value),
            r.index() == idx,
            r.saved() == vec_scoped@[idx as int],
            r.saved_state() == ((vec_scoped.saved_state(), idx, vec_scoped@[idx as int])),
    {
        let mut target = vec_scoped;
        let mut value = value;
        let v = target.vec_mut();
        let slot = &mut v[idx];
        core::mem::swap(slot, &mut value);
        Assign { inner: target, idx, previous: value }
    }

    /// The checked form of `new`: an out-of-bounds index is a precondition
    /// failure, reported with the target handed back untouched, so the caller
    /// can inspect the sequence and see it unchanged.
    pub fn try_new(vec_scoped: S, value: S::Element, idx: usize) -> (r: Result<
        Self,
        (S, S::Element),
    >)
        ensures
            match r {
                Ok(h) => idx < vec_scoped@.len() && h@ == assign_applied(
                    vec_scoped@,
                    idx as int,
                    value,
                ) && h.index() == idx && h.saved() == vec_scoped@[idx as int]
                    && h.saved_state() == ((vec_scoped.saved_state(), idx, vec_scoped@[idx as int])),
                Err((t, val)) => idx >= vec_scoped@.len() && t@ == vec_scoped@
                    && t.saved_state() == vec_scoped.saved_state() && val == value,
            },
    {
        let mut target = vec_scoped;
        let len = target.vec_mut().len();
        if idx < len {
            Ok(Assign::new(target, value, idx))
        } else {
            Err((target, value))
        }
    }

    /// Releases the handle: restores the overwritten element at the captured
    /// index and returns the target. The index must still be in bounds, which
    /// holds whenever every operation nested on this handle has been released
    /// first; an undo can therefore never write to the wrong slot.
    pub fn into_inner(self) -> (r: S)
        requires
            self.index() < self@.len(),
        ensures
            r@ == assign_undone(self@, self.index() as int, self.saved()),
            r.saved_state() == self.saved_state().0,
    {
        let Assign { inner, idx, previous } = self;
        let mut inner = inner;
        let mut previous = previous;
        let v = inner.vec_mut();
        let slot = &mut v[idx];
        core::mem::swap(slot, &mut previous);
        inner
    }
}

/// A handle that changes nothing; see `VecScoped::nooped`. It adapts a plain
/// sequence to the handle-shaped view, so generic callers can accept "a
/// sequence or a scoped modification of one" uniformly.
#[must_use]
pub struct Noop<S: VecScopedPrivate> {
    inner: S,
}

impl<S: VecScopedPrivate> View for Noop<S> {
    type V = Seq<S::Element>;

    closed spec fn view(&self) -> Seq<S::Element> {
        self.inner@
    }
}

impl<S: VecScopedPrivate> VecScopedPrivate for Noop<S> {
    type Element = S::Element;

    type Saved = S::Saved;

    closed spec fn saved_state(&self) -> S::Saved {
        self.inner.saved_state()
    }

    fn vec_mut(&mut self) -> (v: &mut Vec<S::Element>) {
        self.inner.vec_mut()
    }

    fn current(&self) -> (v: &[S::Element]) {
        self.inner.current()
    }
}

impl<S: VecScopedPrivate> Noop<S> {
    /// Wraps the target without touching its sequence.
    pub fn new(vec_scoped: S) -> (r: Self)
        ensures
            r@ == vec_scoped@,
            r.saved_state() == vec_scoped.saved_state(),
    {
        Noop { inner: vec_scoped }
    }

    /// Releases the handle: there is nothing to undo, so the target comes
    /// back with its sequence as it is.
    pub fn into_inner(self) -> (r: S)
        ensures
            r@ == self@,
            r.saved_state() == self.saved_state(),
    {
        self.inner
    }
}

} // verus!
