//! A memoizing wrapper around a closure: each argument is passed to the
//! closure at most once, and later lookups return the stored result.

use vstd::prelude::*;

verus! {

/// The result stored for `arg`, if any: the value of the first pair whose
/// key is `arg`.
pub open spec fn cached_result(cache: Seq<(u32, u32)>, arg: u32) -> Option<u32>
    decreases cache.len(),
{
    if cache.len() == 0 {
        None
    } else if cache.first().0 == arg {
        Some(cache.first().1)
    } else {
        cached_result(cache.drop_first(), arg)
    }
}

/// Once the cache has been scanned past position `i` without a match, the
/// lookup is decided by what stands at `i`.
proof fn lemma_first_match(cache: Seq<(u32, u32)>, arg: u32, i: int)
    requires
        0 <= i <= cache.len(),
        forall|k: int| 0 <= k < i ==> (#[trigger] cache[k]).0 != arg,
    ensures
        i < cache.len() && cache[i].0 == arg ==> cached_result(cache, arg) == Some(cache[i].1),
        i == cache.len() ==> cached_result(cache, arg) is None,
    decreases i,
{
    if i > 0 {
        lemma_first_match(cache.drop_first(), arg, i - 1);
    }
}

/// Remembers, for every argument it has seen, what the closure returned
/// for it.
pub struct Cacher<F> where F: Fn(u32) -> u32 {
    calculation: F,
    value: Vec<(u32, u32)>,
}

impl<F> Cacher<F> where F: Fn(u32) -> u32 {
    /// The wrapped closure.
    pub closed spec fn spec_calculation(&self) -> F {
        self.calculation
    }

    /// The stored argument-result pairs, in the order they were first
    /// asked for.
    pub closed spec fn spec_cached(&self) -> Seq<(u32, u32)> {
        self.value@
    }

    /// Every stored pair is a possible input-output pair of the closure.
    pub closed spec fn wf(&self) -> bool {
        forall|i: int|
            0 <= i < self.value@.len() ==> call_ensures(
                self.calculation,
                (#[trigger] self.value@[i].0,),
                self.value@[i].1,
            )
    }

    /// A cacher that has not run its closure yet.
    pub fn new(calculation: F) -> (r: Cacher<F>)
        ensures
            r.wf(),
            r.spec_calculation() == calculation,
            r.spec_cached() == Seq::<(u32, u32)>::empty(),
    {
        let r = Cacher { calculation, value: Vec::new() };
        proof {
            assert(r.spec_cached() =~= Seq::<(u32, u32)>::empty());
        }
        r
    }

    /// The closure's result for `arg`. An argument seen before gets its
    /// stored result back and leaves the cache untouched; a new argument
    /// is run through the closure once and the pair is appended. Either
    /// way, the result is one the closure can return for `arg`.
    pub fn value(&mut self, arg: u32) -> (r: u32)
        requires
            old(self).wf(),
            call_requires(old(self).spec_calculation(), (arg,)),
        ensures
            final(self).wf(),
            final(self).spec_calculation() == old(self).spec_calculation(),
            call_ensures(final(self).spec_calculation(), (arg,), r),
            cached_result(old(self).spec_cached(), arg) is Some ==> r == cached_result(
                old(self).spec_cached(),
                arg,
            )->0 && final(self).spec_cached() == old(self).spec_cached(),
            cached_result(old(self).spec_cached(), arg) is None ==> final(self).spec_cached()
                == old(self).spec_cached().push((arg, r)),
    {
        let mut i: usize = 0;
        while i < self.value.len()
            invariant
                self == old(self),
                self.wf(),
                0 <= i <= self.value@.len(),
                forall|k: int| 0 <= k < i ==> (#[trigger] self.value@[k]).0 != arg,
            decreases self.value@.len() - i,
        {
            if self.value[i].0 == arg {
                proof {
                    lemma_first_match(self.value@, arg, i as int);
                }
                return self.value[i].1;
            }
            i = i + 1;
        }
        proof {
            lemma_first_match(self.value@, arg, self.value@.len() as int);
        }
        let v = (self.calculation)(arg);
        self.value.push((arg, v));
        v
    }
}

} // verus!
