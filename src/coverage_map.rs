use vstd::prelude::*;
use crate::fingerprint::{crc32_of, fingerprint};

verus! {

/// The number of entries of `s` that differ from `initial`.
pub open spec fn count_set(s: Seq<u8>, initial: u8) -> nat
    decreases s.len(),
{
    if s.len() == 0 {
        0
    } else {
        count_set(s.drop_last(), initial) + if s.last() != initial { 1nat } else { 0nat }
    }
}

/// The number of positions in `indexes` (repeats counted each time) that lie
/// inside `s` and hold an entry other than `initial`.
pub open spec fn count_set_at(s: Seq<u8>, initial: u8, indexes: Seq<usize>) -> nat
    decreases indexes.len(),
{
    if indexes.len() == 0 {
        0
    } else {
        let i = indexes.last();
        count_set_at(s, initial, indexes.drop_last()) + if (i as int) < s.len() && s[i as int]
            != initial {
            1nat
        } else {
            0nat
        }
    }
}

/// The error a hook failed with, if it failed.
pub open spec fn failure<T, E>(r: Result<T, E>) -> Option<E> {
    match r {
        Ok(_) => None,
        Err(e) => Some(e),
    }
}

/// The hooks of the execution protocol that a map may act on.
#[derive(Clone, Copy, Debug, PartialEq, Eq, Structural)]
pub enum Hook {
    PreExec,
    PreObserveFirst,
    PostObserveFirst,
    PreObserveSecond,
    PostObserveSecond,
}

/// The capability set of a byte-valued coverage map.
///
/// A map is modelled by its entries, the value they reset to, its name, the
/// number of usable entries and its own hash. What a hook does is up to each
/// map and is described by `hook_step`.
pub trait CoverageMap: Sized {
    type Error;

    spec fn entries(&self) -> Seq<u8>;

    spec fn initial_spec(&self) -> u8;

    spec fn name_spec(&self) -> Seq<char>;

    spec fn usable_spec(&self) -> nat;

    spec fn hash_spec(&self) -> u64;

    /// How a map in state `before` may answer `hook` with `result`, ending
    /// in state `after`.
    spec fn hook_step(before: Self, hook: Hook, after: Self, error: Option<Self::Error>) -> bool;

    fn name(&self) -> (r: &str)
        ensures
            r@ == self.name_spec(),
    ;

    fn len(&self) -> (r: usize)
        ensures
            r == self.entries().len(),
    ;

    fn initial(&self) -> (r: u8)
        ensures
            r == self.initial_spec(),
    ;

    fn usable_count(&self) -> (r: usize)
        ensures
            r == self.usable_spec(),
    ;

    fn get(&self, idx: usize) -> (r: &u8)
        requires
            idx < self.entries().len(),
        ensures
            *r == self.entries()[idx as int],
    ;

    fn get_mut(&mut self, idx: usize) -> (r: &mut u8)
        requires
            idx < old(self).entries().len(),
        ensures
            *r == old(self).entries()[idx as int],
            final(self).entries() == old(self).entries().update(idx as int, *final(r)),
            final(self).initial_spec() == old(self).initial_spec(),
            final(self).name_spec() == old(self).name_spec(),
    ;

    fn count_bytes(&self) -> (r: u64)
        ensures
            r == count_set(self.entries(), self.initial_spec()),
    ;

    fn reset_map(&mut self) -> (r: Result<(), Self::Error>)
        ensures
            r is Ok ==> final(self).entries() == Seq::new(
                old(self).entries().len(),
                |i: int| old(self).initial_spec(),
            ),
            final(self).initial_spec() == old(self).initial_spec(),
            final(self).name_spec() == old(self).name_spec(),
    ;

    fn hash(&self) -> (r: u64)
        ensures
            r == self.hash_spec(),
    ;

    fn to_vec(&self) -> (r: Vec<u8>)
        ensures
            r@ == self.entries(),
    ;

    fn how_many_set(&self, indexes: &[usize]) -> (r: usize)
        ensures
            r == count_set_at(self.entries(), self.initial_spec(), indexes@),
    ;

    fn truncate(&mut self, new_len: usize)
        ensures
            final(self).entries() == if new_len < old(self).entries().len() {
                old(self).entries().take(new_len as int)
            } else {
                old(self).entries()
            },
            final(self).initial_spec() == old(self).initial_spec(),
            final(self).name_spec() == old(self).name_spec(),
    ;

    fn as_slice(&self) -> (r: &[u8])
        ensures
            r@ == self.entries(),
    ;

    fn as_mut_slice(&mut self) -> (r: &mut [u8])
        ensures
            r@ == old(self).entries(),
            final(self).entries() == final(r)@,
            final(self).initial_spec() == old(self).initial_spec(),
            final(self).name_spec() == old(self).name_spec(),
    ;

    fn pre_exec(&mut self) -> (r: Result<(), Self::Error>)
        ensures
            Self::hook_step(*old(self), Hook::PreExec, *final(self), failure(r)),
            final(self).name_spec() == old(self).name_spec(),
    ;

    fn pre_observe_first(&mut self) -> (r: Result<(), Self::Error>)
        ensures
            Self::hook_step(*old(self), Hook::PreObserveFirst, *final(self), failure(r)),
            final(self).name_spec() == old(self).name_spec(),
    ;

    fn post_observe_first(&mut self) -> (r: Result<(), Self::Error>)
        ensures
            Self::hook_step(*old(self), Hook::PostObserveFirst, *final(self), failure(r)),
            final(self).name_spec() == old(self).name_spec(),
    ;

    fn pre_observe_second(&mut self) -> (r: Result<(), Self::Error>)
        ensures
            Self::hook_step(*old(self), Hook::PreObserveSecond, *final(self), failure(r)),
            final(self).name_spec() == old(self).name_spec(),
    ;

    fn post_observe_second(&mut self) -> (r: Result<(), Self::Error>)
        ensures
            Self::hook_step(*old(self), Hook::PostObserveSecond, *final(self), failure(r)),
            final(self).name_spec() == old(self).name_spec(),
    ;
}

/// A named coverage map that owns its entries.
///
/// Its hook before each execution resets every entry to the initial value;
/// its differential hooks leave it as it is. It never fails.
#[derive(Clone, Debug)]
pub struct ByteMap {
    name: String,
    map: Vec<u8>,
    initial: u8,
}

impl ByteMap {
    /// A map named `name` over `map`, whose entries reset to `initial`.
    pub fn new(name: &str, map: Vec<u8>, initial: u8) -> (r: Self)
        ensures
            r.name_spec() == name@,
            r.entries() == map@,
            r.initial_spec() == initial,
    {
        ByteMap { name: name.to_owned(), map, initial }
    }

    fn fill_initial(&mut self)
        ensures
            final(self).map@ == Seq::new(old(self).map@.len(), |i: int| old(self).initial),
            final(self).initial == old(self).initial,
            final(self).name == old(self).name,
    {
        let mut i: usize = 0;
        while i < self.map.len()
            invariant
                i <= self.map@.len(),
                self.map@.len() == old(self).map@.len(),
                self.initial == old(self).initial,
                self.name == old(self).name,
                forall|j: int| 0 <= j < i ==> self.map@[j] == self.initial,
            decreases self.map@.len() - i,
        {
            self.map.set(i, self.initial);
            i = i + 1;
        }
        assert(self.map@ =~= Seq::new(old(self).map@.len(), |i: int| old(self).initial));
    }
}

impl CoverageMap for ByteMap {
    type Error = ();

    closed spec fn entries(&self) -> Seq<u8> {
        self.map@
    }

    closed spec fn initial_spec(&self) -> u8 {
        self.initial
    }

    closed spec fn name_spec(&self) -> Seq<char> {
        self.name@
    }

    open spec fn usable_spec(&self) -> nat {
        self.entries().len()
    }

    open spec fn hash_spec(&self) -> u64 {
        crc32_of(self.entries()) as u64
    }

    open spec fn hook_step(before: Self, hook: Hook, after: Self, error: Option<()>) -> bool {
        &&& error is None
        &&& after.name_spec() == before.name_spec()
        &&& after.initial_spec() == before.initial_spec()
        &&& after.entries() == match hook {
            Hook::PreExec => Seq::new(before.entries().len(), |i: int| before.initial_spec()),
            _ => before.entries(),
        }
    }

    fn name(&self) -> (r: &str) {
        self.name.as_str()
    }

    fn len(&self) -> (r: usize) {
        self.map.len()
    }

    fn initial(&self) -> (r: u8) {
        self.initial
    }

    fn usable_count(&self) -> (r: usize) {
        self.map.len()
    }

    fn get(&self, idx: usize) -> (r: &u8) {
        &self.map[idx]
    }

    fn get_mut(&mut self, idx: usize) -> (r: &mut u8) {
        &mut self.map[idx]
    }

    fn count_bytes(&self) -> (r: u64) {
        let mut res: u64 = 0;
        let mut i: usize = 0;
        while i < self.map.len()
            invariant
                i <= self.map@.len(),
                res == count_set(self.map@.take(i as int), self.initial),
            decreases self.map@.len() - i,
        {
            proof {
                assert(self.map@.take(i + 1).drop_last() =~= self.map@.take(i as int));
                lemma_count_set_bound(self.map@.take(i as int), self.initial);
            }
            if self.map[i] != self.initial {
                res = res + 1;
            }
            i = i + 1;
        }
        assert(self.map@.take(i as int) =~= self.map@);
        res
    }

    fn reset_map(&mut self) -> (r: Result<(), ()>) {
        self.fill_initial();
        Ok(())
    }

    fn hash(&self) -> (r: u64) {
        fingerprint(self.map.as_slice()) as u64
    }

    fn to_vec(&self) -> (r: Vec<u8>) {
        self.map.clone()
    }

    fn how_many_set(&self, indexes: &[usize]) -> (r: usize) {
        let mut res: usize = 0;
        let mut k: usize = 0;
        while k < indexes.len()
            invariant
                k <= indexes@.len(),
                res <= k,
                res == count_set_at(self.map@, self.initial, indexes@.take(k as int)),
            decreases indexes@.len() - k,
        {
            proof {
                assert(indexes@.take(k + 1).drop_last() =~= indexes@.take(k as int));
            }
            let i = indexes[k];
            if i < self.map.len() && self.map[i] != self.initial {
                res = res + 1;
            }
            k = k + 1;
        }
        assert(indexes@.take(k as int) =~= indexes@);
        res
    }

    fn truncate(&mut self, new_len: usize) {
        self.map.truncate(new_len);
        assert(new_len >= old(self).map@.len() ==> self.map@ =~= old(self).map@);
    }

    fn as_slice(&self) -> (r: &[u8]) {
        self.map.as_slice()
    }

    fn as_mut_slice(&mut self) -> (r: &mut [u8]) {
        self.map.as_mut_slice()
    }

    fn pre_exec(&mut self) -> (r: Result<(), ()>) {
        self.fill_initial();
        Ok(())
    }

    fn pre_observe_first(&mut self) -> (r: Result<(), ()>) {
        Ok(())
    }

    fn post_observe_first(&mut self) -> (r: Result<(), ()>) {
        Ok(())
    }

    fn pre_observe_second(&mut self) -> (r: Result<(), ()>) {
        Ok(())
    }

    fn post_observe_second(&mut self) -> (r: Result<(), ()>) {
        Ok(())
    }
}

proof fn lemma_count_set_bound(s: Seq<u8>, initial: u8)
    ensures
        count_set(s, initial) <= s.len(),
    decreases s.len(),
{
    if s.len() > 0 {
        lemma_count_set_bound(s.drop_last(), initial);
    }
}

} // verus!
