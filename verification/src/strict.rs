//! Key-based comparison that only compares wrappers of the identical wrapped
//! type and key-function type. Two contexts built from different key
//! functions produce wrappers of different types, so comparing across
//! contexts is rejected when the program is type-checked. When the key type
//! has a total order the wrapper also offers a three-way comparison.

use core::cmp::Ordering;
use core::marker::PhantomData;
use vstd::prelude::*;
use vstd::std_specs::cmp::OrdSpec;
use vstd::std_specs::cmp::PartialEqSpec;
use vstd::std_specs::cmp::PartialEqSpecImpl;
use vstd::std_specs::cmp::PartialOrdSpec;
use vstd::std_specs::cmp::PartialOrdSpecImpl;

verus! {

/// Wraps a value together with a borrowed key function; the wrapper compares
/// as the key extracted from the wrapped value compares, and only against
/// wrappers of the very same type.
#[verifier::reject_recursive_types(K)]
pub struct CmpByKey<'kf, KF, T, K> where KF: Fn(&T) -> K {
    inner: T,
    key_func: &'kf KF,
    key_type: PhantomData<K>,
}

impl<'kf, KF, T, K> CmpByKey<'kf, KF, T, K> where KF: Fn(&T) -> K {
    /// The wrapped value.
    pub closed spec fn value(self) -> T {
        self.inner
    }

    /// The key function the wrapper borrows.
    pub closed spec fn key_fn(self) -> KF {
        *self.key_func
    }

    /// The key of the wrapped value: the one result the key function can
    /// return on it. Meaningful only under [`Self::wf`], which makes that
    /// result unique.
    pub closed spec fn key(self) -> K {
        choose|k: K| call_ensures(*self.key_func, (&self.inner,), k)
    }

    /// The key function can be applied to the wrapped value and acts as a
    /// pure mapping on it: it returns one key only. Comparison outcomes are
    /// meaningful only under this discipline, so constructors demand it.
    #[verifier::type_invariant]
    pub closed spec fn wf(self) -> bool {
        &&& call_requires(*self.key_func, (&self.inner,))
        &&& forall|k1: K, k2: K|
            #[trigger] call_ensures(*self.key_func, (&self.inner,), k1)
                && #[trigger] call_ensures(*self.key_func, (&self.inner,), k2) ==> k1 == k2
    }

    /// Wraps `value`; comparisons on the result go by the key that
    /// `key_func` extracts from it.
    pub fn new(value: T, key_func: &'kf KF) -> (w: Self)
        requires
            call_requires(*key_func, (&value,)),
            forall|k1: K, k2: K|
                #[trigger] call_ensures(*key_func, (&value,), k1)
                    && #[trigger] call_ensures(*key_func, (&value,), k2) ==> k1 == k2,
        ensures
            w.wf(),
            w.value() == value,
            w.key_fn() == *key_func,
    {
        CmpByKey { inner: value, key_func, key_type: PhantomData }
    }

    /// Consumes the wrapper and returns the wrapped value unchanged.
    pub fn remove_wrapper(self) -> (value: T)
        ensures
            value == self.value(),
    {
        self.inner
    }

    /// Applies the key function to the wrapped value.
    pub fn get_key(&self) -> (key: K)
        ensures
            call_ensures(self.key_fn(), (&self.value(),), key),
            key == self.key(),
    {
        proof {
            use_type_invariant(self);
        }
        (self.key_func)(&self.inner)
    }

    /// Three-way comparison, available when the key type has a total order:
    /// the wrappers compare exactly as their extracted keys compare.
    pub fn cmp(&self, other: &Self) -> (r: Ordering) where K: Ord
        ensures
            K::obeys_cmp_spec() ==> r == self.key().cmp_spec(&other.key()),
            exists|k1: K, k2: K|
                {
                    &&& #[trigger] call_ensures(self.key_fn(), (&self.value(),), k1)
                    &&& #[trigger] call_ensures(other.key_fn(), (&other.value(),), k2)
                    &&& K::obeys_cmp_spec() ==> r == k1.cmp_spec(&k2)
                },
    {
        self.get_key().cmp(&other.get_key())
    }
}

impl<'kf, KF, T, K> PartialEqSpecImpl for CmpByKey<'kf, KF, T, K> where KF: Fn(&T) -> K, K: PartialEq {
    open spec fn obeys_eq_spec() -> bool {
        K::obeys_eq_spec()
    }

    open spec fn eq_spec(&self, other: &Self) -> bool {
        self.key().eq_spec(&other.key())
    }
}

impl<'kf, KF, T, K> PartialEq for CmpByKey<'kf, KF, T, K> where KF: Fn(&T) -> K, K: PartialEq {
    /// Two wrappers are equal exactly when their extracted keys are equal.
    fn eq(&self, other: &Self) -> (r: bool)
        ensures
            exists|k1: K, k2: K|
                {
                    &&& #[trigger] call_ensures(self.key_fn(), (&self.value(),), k1)
                    &&& #[trigger] call_ensures(other.key_fn(), (&other.value(),), k2)
                    &&& K::obeys_eq_spec() ==> r == k1.eq_spec(&k2)
                },
    {
        self.get_key().eq(&other.get_key())
    }
}

impl<'kf, KF, T, K> Eq for CmpByKey<'kf, KF, T, K> where KF: Fn(&T) -> K, K: Eq {}

impl<'kf, KF, T, K> PartialOrdSpecImpl for CmpByKey<'kf, KF, T, K> where KF: Fn(&T) -> K, K: PartialOrd {
    open spec fn obeys_partial_cmp_spec() -> bool {
        K::obeys_partial_cmp_spec()
    }

    open spec fn partial_cmp_spec(&self, other: &Self) -> Option<Ordering> {
        self.key().partial_cmp_spec(&other.key())
    }
}

impl<'kf, KF, T, K> PartialOrd for CmpByKey<'kf, KF, T, K> where KF: Fn(&T) -> K, K: PartialOrd {
    /// Two wrappers are ordered exactly as their extracted keys are ordered;
    /// where the keys' partial order gives no answer, neither does this.
    fn partial_cmp(&self, other: &Self) -> (r: Option<Ordering>)
        ensures
            exists|k1: K, k2: K|
                {
                    &&& #[trigger] call_ensures(self.key_fn(), (&self.value(),), k1)
                    &&& #[trigger] call_ensures(other.key_fn(), (&other.value(),), k2)
                    &&& K::obeys_partial_cmp_spec() ==> r == k1.partial_cmp_spec(&k2)
                },
    {
        self.get_key().partial_cmp(&other.get_key())
    }
}

/// Holds one key function, owned by value, so that many values can be
/// wrapped under the same comparison context. Wrappers borrow the context's
/// function, so all of them share one wrapper type: wrappers of another
/// context, built from a key function of another type, cannot be compared
/// with them.
pub struct KeyCmpContext<KF> {
    key_func: KF,
}

impl<KF> KeyCmpContext<KF> {
    /// The key function that every wrapper made by this context borrows.
    pub closed spec fn key_fn(self) -> KF {
        self.key_func
    }

    /// Creates a context that wraps values with `key_func`.
    pub fn new<T, K>(key_func: KF) -> (c: KeyCmpContext<KF>) where KF: Fn(&T) -> K
        ensures
            c.key_fn() == key_func,
    {
        KeyCmpContext { key_func }
    }

    /// Wraps `value` with this context's key function.
    pub fn wrap<'s, T, K>(&'s self, value: T) -> (w: CmpByKey<'s, KF, T, K>) where
        KF: Fn(&T) -> K,

        requires
            call_requires(self.key_fn(), (&value,)),
            forall|k1: K, k2: K|
                #[trigger] call_ensures(self.key_fn(), (&value,), k1)
                    && #[trigger] call_ensures(self.key_fn(), (&value,), k2) ==> k1 == k2,
        ensures
            w.wf(),
            w.value() == value,
            w.key_fn() == self.key_fn(),
    {
        CmpByKey::new(value, &self.key_func)
    }
}

/// Law: key extraction is idempotent. On a well-formed wrapper the key
/// function acts as a pure mapping, so any two keys it can return on the
/// wrapped value are the same key, namely the wrapper's key.
pub proof fn lemma_key_extraction_idempotent<'kf, KF, T, K>(
    w: CmpByKey<'kf, KF, T, K>,
    k1: K,
    k2: K,
) where KF: Fn(&T) -> K
    requires
        w.wf(),
        call_ensures(w.key_fn(), (&w.value(),), k1),
        call_ensures(w.key_fn(), (&w.value(),), k2),
    ensures
        k1 == k2,
        k1 == w.key(),
{
}

/// Law: wrapper comparison delegates to the extracted keys. Two wrappers are
/// equal exactly when their keys are equal, and ordered exactly as their
/// keys are ordered.
pub proof fn lemma_compare_delegates_to_keys<'kf, KF, T, K>(
    a: CmpByKey<'kf, KF, T, K>,
    b: CmpByKey<'kf, KF, T, K>,
) where KF: Fn(&T) -> K, K: PartialOrd
    ensures
        PartialEqSpec::eq_spec(&a, &b) == a.key().eq_spec(&b.key()),
        PartialOrdSpec::partial_cmp_spec(&a, &b) == a.key().partial_cmp_spec(&b.key()),
{
}

/// Law: wrapper equality is reflexive whenever key equality is.
pub proof fn lemma_eq_reflexive<'kf, KF, T, K>(a: CmpByKey<'kf, KF, T, K>) where
    KF: Fn(&T) -> K,
    K: PartialEq,

    requires
        forall|k: K| #[trigger] k.eq_spec(&k),
    ensures
        PartialEqSpec::eq_spec(&a, &a),
{
}

/// Law: wrapper equality is symmetric whenever key equality is.
pub proof fn lemma_eq_symmetric<'kf, KF, T, K>(
    a: CmpByKey<'kf, KF, T, K>,
    b: CmpByKey<'kf, KF, T, K>,
) where KF: Fn(&T) -> K, K: PartialEq
    requires
        forall|k1: K, k2: K| #[trigger] k1.eq_spec(&k2) <==> k2.eq_spec(&k1),
    ensures
        PartialEqSpec::eq_spec(&a, &b) <==> PartialEqSpec::eq_spec(&b, &a),
{
}

/// Law: wrapper equality is transitive whenever key equality is.
pub proof fn lemma_eq_transitive<'kf, KF, T, K>(
    a: CmpByKey<'kf, KF, T, K>,
    b: CmpByKey<'kf, KF, T, K>,
    c: CmpByKey<'kf, KF, T, K>,
) where KF: Fn(&T) -> K, K: PartialEq
    requires
        forall|k1: K, k2: K, k3: K|
            #[trigger] k1.eq_spec(&k2) && #[trigger] k2.eq_spec(&k3) ==> k1.eq_spec(&k3),
        PartialEqSpec::eq_spec(&a, &b),
        PartialEqSpec::eq_spec(&b, &c),
    ensures
        PartialEqSpec::eq_spec(&a, &c),
{
}

/// Law: the wrapper order treats its two sides symmetrically whenever the
/// key order does: one side is less exactly when the other side is greater.
pub proof fn lemma_lt_gt_duality<'kf, KF, T, K>(
    a: CmpByKey<'kf, KF, T, K>,
    b: CmpByKey<'kf, KF, T, K>,
) where KF: Fn(&T) -> K, K: PartialOrd
    requires
        forall|k1: K, k2: K|
            #![trigger k1.partial_cmp_spec(&k2)]
            k1.partial_cmp_spec(&k2) == Some(Ordering::Less) <==> k2.partial_cmp_spec(&k1)
                == Some(Ordering::Greater),
    ensures
        PartialOrdSpec::partial_cmp_spec(&a, &b) == Some(Ordering::Less)
            <==> PartialOrdSpec::partial_cmp_spec(&b, &a) == Some(Ordering::Greater),
{
}

/// Law: the wrapper order is transitive whenever the key order is.
pub proof fn lemma_lt_transitive<'kf, KF, T, K>(
    a: CmpByKey<'kf, KF, T, K>,
    b: CmpByKey<'kf, KF, T, K>,
    c: CmpByKey<'kf, KF, T, K>,
) where KF: Fn(&T) -> K, K: PartialOrd
    requires
        forall|k1: K, k2: K, k3: K|
            #[trigger] k1.partial_cmp_spec(&k2) == Some(Ordering::Less)
                && #[trigger] k2.partial_cmp_spec(&k3) == Some(Ordering::Less)
                ==> k1.partial_cmp_spec(&k3) == Some(Ordering::Less),
        PartialOrdSpec::partial_cmp_spec(&a, &b) == Some(Ordering::Less),
        PartialOrdSpec::partial_cmp_spec(&b, &c) == Some(Ordering::Less),
    ensures
        PartialOrdSpec::partial_cmp_spec(&a, &c) == Some(Ordering::Less),
{
}

} // verus!
