//! A wrapper that gives a single-use iterator a "fake clone": cloning
//! relocates the wrapped iterator into the new value instead of duplicating
//! it, so a non-duplicable iterator can satisfy an interface that insists on
//! cloning before each use, as long as it is in fact used only once.

use vstd::prelude::*;

use crate::iterable::Iterable;
use crate::iterable::SinglePass;

verus! {

/// An adapter that holds a single-pass iterator and hands it out at most
/// once.
///
/// The adapter is either *loaded* (it still holds the iterator it was built
/// from) or *empty* (the iterator has been relocated away by [`Self::clone`]
/// or taken by [`Self::into_iter`]). Cloning a loaded adapter deliberately
/// subverts ordinary clone semantics: it *moves* the iterator into the
/// returned adapter and leaves the original empty. This lets a serialization
/// interface that always clones before consuming drain the iterator exactly
/// once.
///
/// The adapter follows the strict double-use policy: cloning or iterating an
/// adapter that is no longer loaded is a caller error, not a quiet empty
/// result, so both operations require a loaded adapter. An unverified caller
/// that breaks that requirement fails loudly instead of losing data silently.
pub struct CloneOnce<I> {
    slot: Option<I>,
}

impl<I: SinglePass> CloneOnce<I> {
    /// Whether the adapter still holds its iterator.
    pub closed spec fn loaded(&self) -> bool {
        self.slot is Some
    }

    /// The items the held iterator has yet to yield; empty once the iterator
    /// has been relocated away.
    pub closed spec fn contents(&self) -> Seq<I::Item> {
        match self.slot {
            Some(it) => it.remaining(),
            None => Seq::empty(),
        }
    }

    /// Wrap a single-pass iterator in a fresh, loaded adapter.
    pub fn from(iter: I) -> (r: Self)
        ensures
            r.loaded(),
            r.contents() == iter.remaining(),
    {
        CloneOnce { slot: Some(iter) }
    }

    /// Relocate the held iterator into the returned adapter, leaving this one
    /// empty. The items are moved, never duplicated: afterwards the original
    /// holds nothing, and only the returned adapter can yield them. Under the
    /// strict policy a second clone of the same adapter is a caller error,
    /// excluded by the precondition.
    pub fn clone(&mut self) -> (r: Self)
        requires
            old(self).loaded(),
        ensures
            !final(self).loaded(),
            final(self).contents() == Seq::<I::Item>::empty(),
            r.loaded(),
            r.contents() == old(self).contents(),
    {
        let taken = self.slot.take();
        CloneOnce { slot: Some(taken.unwrap()) }
    }

    /// Take the held iterator out of the adapter. Under the strict policy,
    /// iterating an adapter whose iterator was already relocated away is a
    /// caller error, excluded by the precondition.
    pub fn into_iter(self) -> (r: I)
        requires
            self.loaded(),
        ensures
            r.remaining() == self.contents(),
    {
        self.slot.unwrap()
    }

    /// Whether the adapter still holds its iterator, as a run-time query.
    pub fn is_loaded(&self) -> (r: bool)
        ensures
            r == self.loaded(),
    {
        self.slot.is_some()
    }
}

impl<I: SinglePass> Iterable for CloneOnce<I> {
    type Item = I::Item;

    type Pass = I;

    open spec fn items(&self) -> Seq<I::Item> {
        self.contents()
    }

    open spec fn ready(&self) -> bool {
        self.loaded()
    }

    fn produce(&mut self) -> (r: I)
        ensures
            !final(self).loaded(),
    {
        let taken = self.clone();
        taken.into_iter()
    }
}

/// Once an adapter's iterator has been relocated away, the adapter holds
/// nothing: its contents are empty, so no item that was handed to the clone
/// can ever be yielded by the original again.
pub proof fn lemma_relocated_holds_nothing<I: SinglePass>(a: CloneOnce<I>)
    requires
        !a.loaded(),
    ensures
        a.contents() == Seq::<I::Item>::empty(),
{
}

} // verus!
