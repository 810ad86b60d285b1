//! Item identity through caller-supplied key functions.
//!
//! Board and list helpers find items by a key the caller extracts (a card
//! id, a name). The key function must be total and deterministic; its
//! results are compared with the key type's own `==`.

use vstd::prelude::*;
use vstd::std_specs::cmp::PartialEqSpec;

verus! {

/// The key function accepts every item and maps each item to one key.
pub open spec fn is_key_fn<T, K, F: Fn(&T) -> K>(key: F) -> bool {
    &&& forall|t: T| #[trigger] key.requires((&t,))
    &&& forall|t: T, a: K, b: K| #[trigger] key.ensures((&t,), a) && #[trigger] key.ensures(
        (&t,),
        b,
    ) ==> a == b
}

/// The key of `t` under `key`.
pub open spec fn key_of<T, K, F: Fn(&T) -> K>(key: F, t: T) -> K {
    choose|k: K| key.ensures((&t,), k)
}

/// Do two items carry equal keys (by the key type's `==`)?
pub open spec fn same_key<T, K: PartialEq, F: Fn(&T) -> K>(key: F, a: T, b: T) -> bool {
    key_of(key, a).eq_spec(&key_of(key, b))
}

/// A key returned by a call is the key of its argument.
pub proof fn lemma_key_of<T, K, F: Fn(&T) -> K>(key: F, t: T, k: K)
    requires
        is_key_fn(key),
        key.ensures((&t,), k),
    ensures
        key_of(key, t) == k,
{
    let c = key_of(key, t);
    assert(key.ensures((&t,), c));
}

/// Call the key function on `t`, learning that the result is `key_of(key, t)`.
pub fn key_for<T, K, F: Fn(&T) -> K>(key: &F, t: &T) -> (k: K)
    requires
        is_key_fn(*key),
    ensures
        k == key_of(*key, *t),
{
    let k = key(t);
    proof {
        lemma_key_of(*key, *t, k);
    }
    k
}

/// Key equality through the key type's own `==`; its meaning is known for
/// key types whose `==` has a specification.
pub fn keys_equal<K: PartialEq>(a: &K, b: &K) -> (r: bool)
    ensures
        K::obeys_eq_spec() ==> r == a.eq_spec(b),
{
    a.eq(b)
}

} // verus!
