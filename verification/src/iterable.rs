//! The iterator-side abstractions: a single-pass iterator, an iterable that
//! can produce a fresh pass over its items, and concrete vector-backed
//! implementations of both.

use vstd::prelude::*;

verus! {

/// A single-pass iterator: a value that yields a sequence of items, front to
/// back, exactly once. `remaining()` is the sequence of items not yet yielded.
pub trait SinglePass: Sized {
    type Item;

    /// The items this iterator has yet to yield, in order.
    spec fn remaining(&self) -> Seq<Self::Item>;

    /// Yield the next item, or `None` exactly when nothing remains.
    /// Once exhausted, an iterator stays exhausted.
    fn next(&mut self) -> (r: Option<Self::Item>)
        ensures
            match r {
                Some(t) => old(self).remaining().len() > 0 && t == old(self).remaining()[0]
                    && final(self).remaining() == old(self).remaining().drop_first(),
                None => old(self).remaining().len() == 0 && final(self).remaining()
                    == old(self).remaining(),
            },
    ;

    /// A cheap lower bound on how many items remain, usable as a size hint.
    fn size_lower(&self) -> (n: usize)
        ensures
            n <= self.remaining().len(),
    ;
}

/// An iterable: a value that can produce a fresh single-pass iterator over
/// its items. For an ordinary iterable, producing a pass is a non-destructive
/// copy; for [`crate::CloneOnce`] it relocates the wrapped iterator, so the
/// trait leaves the state after `produce` to each implementation. `ready()`
/// says whether a pass may be produced at all.
pub trait Iterable: Sized {
    type Item;

    type Pass: SinglePass<Item = Self::Item>;

    /// The items one full pass yields, in order.
    spec fn items(&self) -> Seq<Self::Item>;

    /// Whether a fresh pass may be produced.
    spec fn ready(&self) -> bool;

    /// Produce a fresh pass over exactly `items()`.
    fn produce(&mut self) -> (r: Self::Pass)
        requires
            old(self).ready(),
        ensures
            r.remaining() == old(self).items(),
    ;
}

/// A single-pass iterator over the elements of a vector, front to back.
/// It owns its elements and moves them out one by one.
pub struct VecSource<T> {
    items: Vec<T>,
}

impl<T> VecSource<T> {
    /// Wrap a vector as a single-pass iterator over its elements, in order.
    pub fn from_vec(items: Vec<T>) -> (r: Self)
        ensures
            r.remaining() == items@,
    {
        VecSource { items }
    }
}

impl<T> SinglePass for VecSource<T> {
    type Item = T;

    closed spec fn remaining(&self) -> Seq<T> {
        self.items@
    }

    fn next(&mut self) -> (r: Option<T>) {
        if self.items.len() == 0 {
            None
        } else {
            let t = self.items.remove(0);
            proof {
                assert(self.items@ =~= old(self).items@.drop_first());
            }
            Some(t)
        }
    }

    fn size_lower(&self) -> (n: usize) {
        self.items.len()
    }
}

/// A repeatable iterable backed by a vector of copyable elements. Every
/// produced pass yields the vector's elements in order, and producing a pass
/// leaves the iterable unchanged, so it can be serialized any number of times.
pub struct VecIterable<T> {
    items: Vec<T>,
}

impl<T: Copy> VecIterable<T> {
    /// Wrap a vector as a repeatable iterable over its elements, in order.
    pub fn from_vec(items: Vec<T>) -> (r: Self)
        ensures
            r.items() == items@,
            r.ready(),
    {
        VecIterable { items }
    }
}

impl<T: Copy> Iterable for VecIterable<T> {
    type Item = T;

    type Pass = VecSource<T>;

    closed spec fn items(&self) -> Seq<T> {
        self.items@
    }

    closed spec fn ready(&self) -> bool {
        true
    }

    fn produce(&mut self) -> (r: VecSource<T>)
        ensures
            *final(self) == *old(self),
    {
        let mut copy: Vec<T> = Vec::new();
        let mut i: usize = 0;
        while i < self.items.len()
            invariant
                i <= self.items.len(),
                copy@ == self.items@.take(i as int),
            decreases self.items.len() - i,
        {
            copy.push(self.items[i]);
            i = i + 1;
        }
        proof {
            assert(copy@ =~= self.items@);
        }
        VecSource::from_vec(copy)
    }
}

/// Drain a single-pass iterator completely, collecting every remaining item
/// into a vector, in order. Afterwards the iterator is exhausted.
pub fn drain_to_vec<I: SinglePass>(it: &mut I) -> (r: Vec<I::Item>)
    ensures
        r@ == old(it).remaining(),
        final(it).remaining() == Seq::<I::Item>::empty(),
{
    let ghost orig = old(it).remaining();
    let mut out: Vec<I::Item> = Vec::new();
    #[verifier::loop_isolation(false)]
    loop
        invariant
            out@ + it.remaining() == orig,
        decreases it.remaining().len(),
    {
        match it.next() {
            Some(t) => {
                out.push(t);
                proof {
                    assert(out@ + it.remaining() =~= orig);
                }
            },
            None => {
                proof {
                    assert(out@ =~= orig);
                    assert(it.remaining() =~= Seq::<I::Item>::empty());
                }
                return out;
            },
        }
    }
}

} // verus!
