//! Serializes an iterable of key/value pairs as a map: one full pass over
//! the iterable is drained into a map sink, entry by entry, in iteration
//! order. Keys are not deduplicated or sorted; what a sink makes of a
//! repeated key is the sink's own business.

use vstd::prelude::*;

use crate::iterable::Iterable;
use crate::iterable::SinglePass;

verus! {

/// A map sink: an externally supplied accumulator for map output.
/// `entries()` is the sequence of key/value entries accepted so far, in
/// order; `done_view` gives the entries a finished output stands for. Any
/// method may fail, and a failure belongs to the sink alone; the serializer
/// propagates it verbatim.
pub trait MapSink<K, V>: Sized {
    /// The finished output (for a serde serializer, its `Ok` value).
    type Done;

    /// The sink's own error (for a serde serializer, its `Error` value).
    type Fault;

    /// The key/value entries the sink has accepted so far, in order.
    spec fn entries(&self) -> Seq<(K, V)>;

    /// The entries a finished output stands for.
    spec fn done_view(d: Self::Done) -> Seq<(K, V)>;

    /// Whether this kind of sink never fails. A sink that declares itself
    /// infallible owes success from every method.
    spec fn infallible() -> bool;

    /// Take a lower-bound size estimate. The estimate is an optimization
    /// hint only: it never changes what the sink has accepted, and a sink
    /// must tolerate an inaccurate one.
    fn hint(&mut self, n: usize) -> (r: Result<(), Self::Fault>)
        ensures
            r is Ok ==> final(self).entries() == old(self).entries(),
            Self::infallible() ==> r is Ok,
    ;

    /// Accept one more entry, after all entries accepted so far.
    fn put_entry(&mut self, key: K, value: V) -> (r: Result<(), Self::Fault>)
        ensures
            r is Ok ==> final(self).entries() == old(self).entries().push((key, value)),
            Self::infallible() ==> r is Ok,
    ;

    /// Finish the sink. A successful output stands for exactly the entries
    /// accepted, in order.
    fn finish(self) -> (r: Result<Self::Done, Self::Fault>)
        ensures
            r matches Ok(d) ==> Self::done_view(d) == self.entries(),
            Self::infallible() ==> r is Ok,
    ;
}

/// Serialize one full pass over `iter` into `sink` as a map: a fresh pass is
/// produced (for [`crate::CloneOnce`] this relocates the wrapped iterator),
/// the sink is hinted with a lower-bound size estimate, and every key/value
/// pair of the pass is submitted in order. On success the finished output
/// holds exactly the iterable's pairs as entries, in iteration order; a
/// failure is the sink's own, propagated verbatim at the point it arose, so
/// a sink that never fails is owed success.
pub fn serialize<K, V, It, S>(iter: &mut It, sink: S) -> (r: Result<S::Done, S::Fault>) where
    It: Iterable<Item = (K, V)>,
    S: MapSink<K, V>,

    requires
        old(iter).ready(),
        sink.entries() == Seq::<(K, V)>::empty(),
    ensures
        r matches Ok(d) ==> S::done_view(d) == old(iter).items(),
        S::infallible() ==> r is Ok,
{
    let ghost items = old(iter).items();
    let mut pass = iter.produce();
    let mut sink = sink;
    let n = pass.size_lower();
    match sink.hint(n) {
        Ok(_) => {},
        Err(e) => {
            return Err(e);
        },
    }
    loop
        invariant
            sink.entries() + pass.remaining() == items,
        ensures
            sink.entries() == items,
        decreases pass.remaining().len(),
    {
        match pass.next() {
            Some(pair) => {
                let (key, value) = pair;
                match sink.put_entry(key, value) {
                    Ok(_) => {
                        proof {
                            assert(sink.entries() + pass.remaining() =~= items);
                        }
                    },
                    Err(e) => {
                        return Err(e);
                    },
                }
            },
            None => {
                proof {
                    assert(sink.entries() =~= items);
                }
                break ;
            },
        }
    }
    sink.finish()
}

/// A map sink that collects its entries into a vector, in order, and never
/// fails: the in-crate witness of the sink contract and the reference output
/// for tests.
pub struct VecMapSink<K, V> {
    out: Vec<(K, V)>,
}

impl<K, V> VecMapSink<K, V> {
    /// An empty map sink.
    pub fn new() -> (r: Self)
        ensures
            r.entries() == Seq::<(K, V)>::empty(),
    {
        VecMapSink { out: Vec::new() }
    }
}

impl<K, V> MapSink<K, V> for VecMapSink<K, V> {
    type Done = Vec<(K, V)>;

    type Fault = ();

    closed spec fn entries(&self) -> Seq<(K, V)> {
        self.out@
    }

    open spec fn done_view(d: Vec<(K, V)>) -> Seq<(K, V)> {
        d@
    }

    open spec fn infallible() -> bool {
        true
    }

    fn hint(&mut self, _n: usize) -> (r: Result<(), ()>) {
        Ok(())
    }

    fn put_entry(&mut self, key: K, value: V) -> (r: Result<(), ()>) {
        self.out.push((key, value));
        Ok(())
    }

    fn finish(self) -> (r: Result<Vec<(K, V)>, ()>) {
        Ok(self.out)
    }
}

/// Whether the keys of an entry sequence are pairwise distinct.
pub open spec fn keys_unique<K, V>(s: Seq<(K, V)>) -> bool {
    forall|i: int, j: int| 0 <= i < j < s.len() ==> s[i].0 != s[j].0
}

/// The mapping an entry sequence induces when read left to right, a later
/// entry overwriting an earlier one with the same key.
pub open spec fn entry_map<K, V>(s: Seq<(K, V)>) -> Map<K, V>
    decreases s.len(),
{
    if s.len() == 0 {
        Map::empty()
    } else {
        entry_map(s.drop_last()).insert(s.last().0, s.last().1)
    }
}

/// For an entry sequence with pairwise distinct keys, the induced mapping
/// holds exactly those entries: every entry's key maps to the value it was
/// paired with, and no other key is in the domain. Together with the
/// serializer's own contract, a successful map serialization of pairs with
/// unique keys therefore stands for exactly those pairs.
pub proof fn lemma_unique_keys_exact_map<K, V>(s: Seq<(K, V)>)
    requires
        keys_unique(s),
    ensures
        forall|i: int| 0 <= i < s.len() ==> entry_map(s).contains_pair(s[i].0, s[i].1),
        forall|k: K|
            entry_map(s).dom().contains(k) ==> exists|i: int| 0 <= i < s.len() && s[i].0 == k,
    decreases s.len(),
{
    if s.len() > 0 {
        let t = s.drop_last();
        assert(keys_unique(t));
        lemma_unique_keys_exact_map(t);
        assert forall|i: int| 0 <= i < s.len() implies entry_map(s).contains_pair(
            s[i].0,
            s[i].1,
        ) by {
            if i < s.len() - 1 {
                assert(entry_map(t).contains_pair(t[i].0, t[i].1));
                assert(s[i].0 != s.last().0);
            }
        }
        assert forall|k: K| entry_map(s).dom().contains(k) implies exists|i: int|
            0 <= i < s.len() && s[i].0 == k by {
            if k != s.last().0 {
                assert(entry_map(t).dom().contains(k));
                assert(exists|i: int| 0 <= i < t.len() && t[i].0 == k);
                let i = choose|i: int| 0 <= i < t.len() && t[i].0 == k;
                assert(t[i] == s[i]);
                assert(s[i].0 == k);
            } else {
                assert(s[s.len() - 1].0 == k);
            }
        }
    }
}

} // verus!
