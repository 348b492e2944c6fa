//! Key-based comparison that permits mixing wrapped types: any two wrappers
//! may be compared as long as their extracted keys are comparable.

use core::cmp::Ordering;
use core::marker::PhantomData;
use vstd::prelude::*;
use vstd::std_specs::cmp::PartialEqSpec;
use vstd::std_specs::cmp::PartialEqSpecImpl;
use vstd::std_specs::cmp::PartialOrdSpec;
use vstd::std_specs::cmp::PartialOrdSpecImpl;

verus! {

/// Wraps a value together with a borrowed key function; the wrapper compares
/// as the key extracted from the wrapped value compares.
#[verifier::reject_recursive_types(K)]
pub struct CmpByKey<'kf, KF, T, K> where KF: Fn(&T) -> K {
    inner: T,
    key_func: &'kf KF,
    key_type: PhantomData<K>,
}

impl<'kf, KF, T, K> CmpByKey<'kf, KF, T, K> where KF: Fn(&T) -> K {
    /// The wrapped value.
    pub closed spec fn value(self) -> T {
        self.inner
    }

    /// The key function the wrapper borrows.
    pub closed spec fn key_fn(self) -> KF {
        *self.key_func
    }

    /// The key of the wrapped value: the one result the key function can
    /// return on it. Meaningful only under [`Self::wf`], which makes that
    /// result unique.
    pub closed spec fn key(self) -> K {
        choose|k: K| call_ensures(*self.key_func, (&self.inner,), k)
    }

    /// The key function can be applied to the wrapped value and acts as a
    /// pure mapping on it: it returns one key only. Comparison outcomes are
    /// meaningful only under this discipline, so constructors demand it.
    #[verifier::type_invariant]
    pub closed spec fn wf(self) -> bool {
        &&& call_requires(*self.key_func, (&self.inner,))
        &&& forall|k1: K, k2: K|
            #[trigger] call_ensures(*self.key_func, (&self.inner,), k1)
                && #[trigger] call_ensures(*self.key_func, (&self.inner,), k2) ==> k1 == k2
    }

    /// Wraps `value`; comparisons on the result go by the key that
    /// `key_func` extracts from it.
    pub fn new(value: T, key_func: &'kf KF) -> (w: Self)
        requires
            call_requires(*key_func, (&value,)),
            forall|k1: K, k2: K|
                #[trigger] call_ensures(*key_func, (&value,), k1)
                    && #[trigger] call_ensures(*key_func, (&value,), k2) ==> k1 == k2,
        ensures
            w.wf(),
            w.value() == value,
            w.key_fn() == *key_func,
    {
        CmpByKey { inner: value, key_func, key_type: PhantomData }
    }

    /// Consumes the wrapper and returns the wrapped value unchanged.
    pub fn remove_wrapper(self) -> (value: T)
        ensures
            value == self.value(),
    {
        self.inner
    }

    /// Applies the key function to the wrapped value.
    pub fn get_key(&self) -> (key: K)
        ensures
            call_ensures(self.key_fn(), (&self.value(),), key),
            key == self.key(),
    {
        proof {
            use_type_invariant(self);
        }
        (self.key_func)(&self.inner)
    }
}

impl<'kf, 'okf, KF, T, K, OKF, OT, OK> PartialEqSpecImpl<CmpByKey<'okf, OKF, OT, OK>> for CmpByKey<
    'kf,
    KF,
    T,
    K,
> where KF: Fn(&T) -> K, OKF: Fn(&OT) -> OK, K: PartialEq<OK> {
    open spec fn obeys_eq_spec() -> bool {
        K::obeys_eq_spec()
    }

    open spec fn eq_spec(&self, other: &CmpByKey<'okf, OKF, OT, OK>) -> bool {
        self.key().eq_spec(&other.key())
    }
}

impl<'kf, 'okf, KF, T, K, OKF, OT, OK> PartialEq<CmpByKey<'okf, OKF, OT, OK>> for CmpByKey<
    'kf,
    KF,
    T,
    K,
> where KF: Fn(&T) -> K, OKF: Fn(&OT) -> OK, K: PartialEq<OK> {
    /// Two wrappers are equal exactly when their extracted keys are equal.
    fn eq(&self, other: &CmpByKey<'okf, OKF, OT, OK>) -> (r: bool)
        ensures
            exists|k1: K, k2: OK|
                {
                    &&& #[trigger] call_ensures(self.key_fn(), (&self.value(),), k1)
                    &&& #[trigger] call_ensures(other.key_fn(), (&other.value(),), k2)
                    &&& K::obeys_eq_spec() ==> r == k1.eq_spec(&k2)
                },
    {
        self.get_key().eq(&other.get_key())
    }
}

impl<'kf, KF, T, K> Eq for CmpByKey<'kf, KF, T, K> where KF: Fn(&T) -> K, K: Eq {}

impl<'kf, 'okf, KF, T, K, OKF, OT, OK> PartialOrdSpecImpl<CmpByKey<'okf, OKF, OT, OK>> for CmpByKey<
    'kf,
    KF,
    T,
    K,
> where KF: Fn(&T) -> K, OKF: Fn(&OT) -> OK, K: PartialOrd<OK> {
    open spec fn obeys_partial_cmp_spec() -> bool {
        K::obeys_partial_cmp_spec()
    }

    open spec fn partial_cmp_spec(&self, other: &CmpByKey<'okf, OKF, OT, OK>) -> Option<Ordering> {
        self.key().partial_cmp_spec(&other.key())
    }
}

impl<'kf, 'okf, KF, T, K, OKF, OT, OK> PartialOrd<CmpByKey<'okf, OKF, OT, OK>> for CmpByKey<
    'kf,
    KF,
    T,
    K,
> where KF: Fn(&T) -> K, OKF: Fn(&OT) -> OK, K: PartialOrd<OK> {
    /// Two wrappers are ordered exactly as their extracted keys are ordered;
    /// where the keys' partial order gives no answer, neither does this.
    fn partial_cmp(&self, other: &CmpByKey<'okf, OKF, OT, OK>) -> (r: Option<Ordering>)
        ensures
            exists|k1: K, k2: OK|
                {
                    &&& #[trigger] call_ensures(self.key_fn(), (&self.value(),), k1)
                    &&& #[trigger] call_ensures(other.key_fn(), (&other.value(),), k2)
                    &&& K::obeys_partial_cmp_spec() ==> r == k1.partial_cmp_spec(&k2)
                },
    {
        self.get_key().partial_cmp(&other.get_key())
    }
}

/// Holds one key function so that many values can be wrapped under the same
/// comparison context without repeating the function at each call site.
pub struct KeyCmpContext<'k, KF> {
    key_func: &'k KF,
}

impl<'k, KF> KeyCmpContext<'k, KF> {
    /// The key function that every wrapper made by this context borrows.
    pub closed spec fn key_fn(self) -> KF {
        *self.key_func
    }

    /// Creates a context that wraps values with `key_func`.
    pub fn new(key_func: &'k KF) -> (c: Self)
        ensures
            c.key_fn() == *key_func,
    {
        KeyCmpContext { key_func }
    }

    /// Wraps `value` with this context's key function.
    pub fn wrap<T, K>(&self, value: T) -> (w: CmpByKey<'k, KF, T, K>) where KF: Fn(&T) -> K
        requires
            call_requires(self.key_fn(), (&value,)),
            forall|k1: K, k2: K|
                #[trigger] call_ensures(self.key_fn(), (&value,), k1)
                    && #[trigger] call_ensures(self.key_fn(), (&value,), k2) ==> k1 == k2,
        ensures
            w.wf(),
            w.value() == value,
            w.key_fn() == self.key_fn(),
    {
        CmpByKey::new(value, self.key_func)
    }
}

/// Law: key extraction is idempotent. On a well-formed wrapper the key
/// function acts as a pure mapping, so any two keys it can return on the
/// wrapped value are the same key, namely the wrapper's key.
pub proof fn lemma_key_extraction_idempotent<'kf, KF, T, K>(
    w: CmpByKey<'kf, KF, T, K>,
    k1: K,
    k2: K,
) where KF: Fn(&T) -> K
    requires
        w.wf(),
        call_ensures(w.key_fn(), (&w.value(),), k1),
        call_ensures(w.key_fn(), (&w.value(),), k2),
    ensures
        k1 == k2,
        k1 == w.key(),
{
}

/// Law: wrapper comparison delegates to the extracted keys. Two wrappers,
/// possibly of different wrapped types and key functions, are equal exactly
/// when their keys are equal, and ordered exactly as their keys are ordered.
pub proof fn lemma_compare_delegates_to_keys<'kf, 'okf, KF, T, K, OKF, OT, OK>(
    a: CmpByKey<'kf, KF, T, K>,
    b: CmpByKey<'okf, OKF, OT, OK>,
) where KF: Fn(&T) -> K, OKF: Fn(&OT) -> OK, K: PartialOrd<OK>
    ensures
        PartialEqSpec::eq_spec(&a, &b) == a.key().eq_spec(&b.key()),
        PartialOrdSpec::partial_cmp_spec(&a, &b) == a.key().partial_cmp_spec(&b.key()),
{
}

} // verus!
