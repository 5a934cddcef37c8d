//! Serializes an iterable of values as a sequence: one full pass over the
//! iterable is drained into a sequence sink, element by element, in order.

use vstd::prelude::*;

use crate::iterable::Iterable;
use crate::iterable::SinglePass;

verus! {

/// A sequence sink: an externally supplied accumulator for sequence output.
/// `contents()` is the sequence of elements accepted so far; `done_view`
/// gives the elements a finished output stands for. Any method may fail, and
/// a failure belongs to the sink alone; the serializer propagates it
/// verbatim.
pub trait SeqSink<T>: Sized {
    /// The finished output (for a serde serializer, its `Ok` value).
    type Done;

    /// The sink's own error (for a serde serializer, its `Error` value).
    type Fault;

    /// The elements the sink has accepted so far, in order.
    spec fn contents(&self) -> Seq<T>;

    /// The elements a finished output stands for.
    spec fn done_view(d: Self::Done) -> Seq<T>;

    /// Whether this kind of sink never fails. A sink that declares itself
    /// infallible owes success from every method.
    spec fn infallible() -> bool;

    /// Take a lower-bound size estimate. The estimate is an optimization
    /// hint only: it never changes what the sink has accepted, and a sink
    /// must tolerate an inaccurate one.
    fn hint(&mut self, n: usize) -> (r: Result<(), Self::Fault>)
        ensures
            r is Ok ==> final(self).contents() == old(self).contents(),
            Self::infallible() ==> r is Ok,
    ;

    /// Accept one more element, after all elements accepted so far.
    fn put(&mut self, item: T) -> (r: Result<(), Self::Fault>)
        ensures
            r is Ok ==> final(self).contents() == old(self).contents().push(item),
            Self::infallible() ==> r is Ok,
    ;

    /// Finish the sink. A successful output stands for exactly the elements
    /// accepted, in order.
    fn finish(self) -> (r: Result<Self::Done, Self::Fault>)
        ensures
            r matches Ok(d) ==> Self::done_view(d) == self.contents(),
            Self::infallible() ==> r is Ok,
    ;
}

/// Serialize one full pass over `iter` into `sink` as a sequence: a fresh
/// pass is produced (for [`crate::CloneOnce`] this relocates the wrapped
/// iterator), the sink is hinted with a lower-bound size estimate, and every
/// item of the pass is submitted in order. On success the finished output
/// holds exactly the iterable's items, in iteration order; a failure is the
/// sink's own, propagated verbatim at the point it arose, so a sink that
/// never fails is owed success.
pub fn serialize<It: Iterable, S: SeqSink<It::Item>>(iter: &mut It, sink: S) -> (r: Result<
    S::Done,
    S::Fault,
>)
    requires
        old(iter).ready(),
        sink.contents() == Seq::<It::Item>::empty(),
    ensures
        r matches Ok(d) ==> S::done_view(d) == old(iter).items(),
        S::infallible() ==> r is Ok,
{
    let ghost items = old(iter).items();
    let mut pass = iter.produce();
    let mut sink = sink;
    let n = pass.size_lower();
    match sink.hint(n) {
        Ok(_) => {},
        Err(e) => {
            return Err(e);
        },
    }
    loop
        invariant
            sink.contents() + pass.remaining() == items,
        ensures
            sink.contents() == items,
        decreases pass.remaining().len(),
    {
        match pass.next() {
            Some(t) => {
                match sink.put(t) {
                    Ok(_) => {
                        proof {
                            assert(sink.contents() + pass.remaining() =~= items);
                        }
                    },
                    Err(e) => {
                        return Err(e);
                    },
                }
            },
            None => {
                proof {
                    assert(sink.contents() =~= items);
                }
                break ;
            },
        }
    }
    sink.finish()
}

/// A sequence sink that collects its elements into a vector and never fails:
/// the in-crate witness of the sink contract and the reference output for
/// tests.
pub struct VecSeqSink<T> {
    out: Vec<T>,
}

impl<T> VecSeqSink<T> {
    /// An empty sequence sink.
    pub fn new() -> (r: Self)
        ensures
            r.contents() == Seq::<T>::empty(),
    {
        VecSeqSink { out: Vec::new() }
    }
}

impl<T> SeqSink<T> for VecSeqSink<T> {
    type Done = Vec<T>;

    type Fault = ();

    closed spec fn contents(&self) -> Seq<T> {
        self.out@
    }

    open spec fn done_view(d: Vec<T>) -> Seq<T> {
        d@
    }

    open spec fn infallible() -> bool {
        true
    }

    fn hint(&mut self, _n: usize) -> (r: Result<(), ()>) {
        Ok(())
    }

    fn put(&mut self, item: T) -> (r: Result<(), ()>) {
        self.out.push(item);
        Ok(())
    }

    fn finish(self) -> (r: Result<Vec<T>, ()>) {
        Ok(self.out)
    }
}

/// The fault of a bounded sink: an element arrived after the sink's room was
/// spent.
#[derive(Debug, PartialEq, Eq)]
pub struct CapacityFault;

/// A sequence sink with fixed room: it accepts an element exactly while it
/// has room left and refuses every further one. It is the in-crate witness
/// of a sink that fails, and of the serializer propagating such a failure
/// verbatim.
pub struct BoundedSeqSink<T> {
    out: Vec<T>,
    left: usize,
}

impl<T> BoundedSeqSink<T> {
    /// How many more elements the sink will accept.
    pub closed spec fn room(&self) -> nat {
        self.left as nat
    }

    /// An empty sink with room for `n` elements.
    pub fn with_room(n: usize) -> (r: Self)
        ensures
            r.contents() == Seq::<T>::empty(),
            r.room() == n,
    {
        BoundedSeqSink { out: Vec::new(), left: n }
    }
}

impl<T> SeqSink<T> for BoundedSeqSink<T> {
    type Done = Vec<T>;

    type Fault = CapacityFault;

    closed spec fn contents(&self) -> Seq<T> {
        self.out@
    }

    open spec fn done_view(d: Vec<T>) -> Seq<T> {
        d@
    }

    open spec fn infallible() -> bool {
        false
    }

    fn hint(&mut self, _n: usize) -> (r: Result<(), CapacityFault>)
        ensures
            final(self).room() == old(self).room(),
            r is Ok,
    {
        Ok(())
    }

    fn put(&mut self, item: T) -> (r: Result<(), CapacityFault>)
        ensures
            r is Ok <==> old(self).room() > 0,
            r is Ok ==> final(self).room() == old(self).room() - 1,
            r is Err ==> *final(self) == *old(self),
    {
        if self.left == 0 {
            return Err(CapacityFault);
        }
        self.left = self.left - 1;
        self.out.push(item);
        Ok(())
    }

    fn finish(self) -> (r: Result<Vec<T>, CapacityFault>)
        ensures
            r is Ok,
    {
        Ok(self.out)
    }
}

} // verus!
