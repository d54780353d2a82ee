use vstd::prelude::*;
use vstd::std_specs::hash::obeys_key_model;

verus! {

broadcast use vstd::std_specs::hash::group_hash_axioms;

/// A memoizing wrapper around a single-argument function: the first call
/// with a key runs the wrapped function and stores the result; every later
/// call with the same key returns the stored result without running the
/// function again.
#[verifier::reject_recursive_types(U)]
#[verifier::reject_recursive_types(V)]
pub struct Cacher<T, U, V> where
    U: std::cmp::Eq + std::hash::Hash + Copy,
    T: Fn(U) -> V,
    V: Copy,
{
    calculation: T,
    cache_map: std::collections::HashMap<U, V>,
}

impl<T, U, V> Cacher<T, U, V> where
    T: Fn(U) -> V,
    U: std::cmp::Eq + std::hash::Hash + Copy,
    V: Copy,
{
    /// The wrapped function.
    pub closed spec fn calc(&self) -> T {
        self.calculation
    }

    /// The results stored so far, as a map from key to cached value.
    pub closed spec fn cache(&self) -> Map<U, V> {
        self.cache_map@
    }

    /// Every stored value is a possible result of the wrapped function on
    /// its key.
    pub open spec fn wf(&self) -> bool {
        forall|k: U| #[trigger]
            self.cache().contains_key(k) ==> call_ensures(self.calc(), (k,), self.cache()[k])
    }

    /// Constructs an empty cache wrapping `calculation`.
    pub fn new(calculation: T) -> (c: Cacher<T, U, V>)
        ensures
            c.calc() == calculation,
            c.cache() == Map::<U, V>::empty(),
            c.wf(),
    {
        Cacher { calculation, cache_map: std::collections::HashMap::new() }
    }

    /// Returns the value of the wrapped function on `arg`, from the cache
    /// when `arg` has been seen before, and by running the function — and
    /// storing its result — when it has not.
    pub fn value(&mut self, arg: U) -> (result: V)
        requires
            obeys_key_model::<U>(),
            old(self).wf(),
            call_requires(old(self).calc(), (arg,)),
        ensures
            final(self).wf(),
            final(self).calc() == old(self).calc(),
            call_ensures(old(self).calc(), (arg,), result),
            final(self).cache() == old(self).cache().insert(arg, result),
            final(self).cache().contains_key(arg) && final(self).cache()[arg] == result,
            old(self).cache().submap_of(final(self).cache()),
            old(self).cache().contains_key(arg) ==> result == old(self).cache()[arg]
                && final(self).cache() == old(self).cache(),
            !old(self).cache().contains_key(arg) ==> final(self).cache()
                == old(self).cache().insert(arg, result),
    {
        let v = self.cache_map.get(&arg);
        match v {
            Some(n) => {
                let result = *n;
                proof {
                    assert(self.cache().insert(arg, result) =~= self.cache());
                }
                result
            },
            None => {
                let n = (self.calculation)(arg);
                self.cache_map.insert(arg, n);
                proof {
                    assert forall|k: U| #[trigger] self.cache().contains_key(k) implies
                        call_ensures(self.calc(), (k,), self.cache()[k]) by {
                        if k != arg {
                            assert(old(self).cache().contains_key(k));
                        }
                    }
                }
                n
            },
        }
    }
}

/// Law: distinct keys persist independently. Storing a result under one key
/// leaves the entry of every other key exactly as it was, so `value(k1)` and
/// `value(k2)` with `k1 != k2` each keep their own result.
pub proof fn lemma_distinct_keys_independent<U, V>(cache: Map<U, V>, k1: U, k2: U, v2: V)
    requires
        k1 != k2,
        cache.contains_key(k1),
    ensures
        cache.insert(k2, v2).contains_key(k1),
        cache.insert(k2, v2)[k1] == cache[k1],
{
}

/// Law: a repeated lookup agrees with the first. After a call stores `r`
/// under `k`, the cache binds `k` to `r`; by the contract of `value`, a
/// second call with `k` then returns `r` again and leaves the cache
/// unchanged.
pub proof fn lemma_repeat_lookup_agrees<U, V>(cache: Map<U, V>, k: U, r: V)
    ensures
        cache.insert(k, r).contains_key(k),
        cache.insert(k, r)[k] == r,
{
}

} // verus!
