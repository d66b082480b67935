use vstd::prelude::*;

verus! {

use vstd::std_specs::cmp::PartialEqSpec;
use vstd::std_specs::cmp::PartialOrdSpec;

/// A transparent wrapper that makes every instance compare equal to every
/// other instance, so a value can ride along in an ordered or hashed
/// container without contributing to the order or the hash.
///
/// Any two `NoOrder<T>` values are equal, compare as `Equal`, and add
/// nothing to a hasher's state, whatever they hold and whether or not `T`
/// itself can be compared or hashed. A tuple such as `(u64, NoOrder<V>)` is
/// therefore ordered and hashed by its first component alone, which lets a
/// payload of any type sit beside a key in a set, a map or a heap.
///
/// Construction is direct (`NoOrder(v)`) and the field is public: the
/// wrapper imposes nothing on the value it carries. Cloning, copying and
/// default construction forward to `T` unchanged.
///
/// The verifier cannot check a hand-written `Ord` implementation, so the
/// total constant comparison is the inherent [`NoOrder::cmp`] method rather
/// than `std::cmp::Ord`.
#[derive(Debug, Copy)]
pub struct NoOrder<T>(pub T);

impl<T> PartialEq for NoOrder<T> {
    /// Unconditionally true: never delegates to `T`'s equality.
    fn eq(&self, _other: &Self) -> (r: bool)
        ensures
            r,
    {
        true
    }
}

impl<T> vstd::std_specs::cmp::PartialEqSpecImpl for NoOrder<T> {
    open spec fn obeys_eq_spec() -> bool {
        true
    }

    open spec fn eq_spec(&self, _other: &Self) -> bool {
        true
    }
}

impl<T> Eq for NoOrder<T> {

}

impl<T> PartialOrd for NoOrder<T> {
    /// Unconditionally `Some(Equal)`: defined even when `T` has no order.
    fn partial_cmp(&self, _other: &Self) -> (r: Option<core::cmp::Ordering>)
        ensures
            r == Some(core::cmp::Ordering::Equal),
    {
        Some(core::cmp::Ordering::Equal)
    }
}

impl<T> vstd::std_specs::cmp::PartialOrdSpecImpl for NoOrder<T> {
    open spec fn obeys_partial_cmp_spec() -> bool {
        true
    }

    open spec fn partial_cmp_spec(&self, _other: &Self) -> Option<core::cmp::Ordering> {
        Some(core::cmp::Ordering::Equal)
    }
}

impl<T> NoOrder<T> {
    /// Total comparison of two wrappers: always `Equal`, whatever they hold.
    pub fn cmp(&self, _other: &Self) -> (r: core::cmp::Ordering)
        ensures
            r == core::cmp::Ordering::Equal,
    {
        core::cmp::Ordering::Equal
    }
}

impl<T> core::hash::Hash for NoOrder<T> {
    fn hash<H: core::hash::Hasher>(&self, state: &mut H)
        ensures
            *final(state) == *old(state),
    {
    }
}

impl<T: Clone> Clone for NoOrder<T> {
    /// Duplicates the wrapped value exactly as `T::clone` does.
    fn clone(&self) -> (r: Self)
        ensures
            cloned::<T>(self.0, r.0),
    {
        NoOrder(self.0.clone())
    }

    fn clone_from(&mut self, source: &Self)
        ensures
            cloned::<T>(source.0, final(self).0),
    {
        self.0 = source.0.clone();
    }
}

impl<T: Default> Default for NoOrder<T> {
    /// Wraps whatever `T::default` constructs.
    fn default() -> (r: Self)
        ensures
            call_ensures(T::default, (), r.0),
    {
        NoOrder(T::default())
    }
}

/// Equality never looks at the wrapped values: `x == y` returns true
/// for every pair of wrappers.
pub proof fn lemma_always_eq<T>(x: &NoOrder<T>, y: &NoOrder<T>)
    ensures
        NoOrder::<T>::obeys_eq_spec(),
        x.eq_spec(y),
{
}

/// Comparison never looks at the wrapped values: `x.partial_cmp(y)`
/// returns `Some(Equal)` for every pair of wrappers.
pub proof fn lemma_always_unordered<T>(x: &NoOrder<T>, y: &NoOrder<T>)
    ensures
        NoOrder::<T>::obeys_partial_cmp_spec(),
        x.partial_cmp_spec(y) == Some(core::cmp::Ordering::Equal),
{
}

/// The constant-true equality is an equivalence relation: reflexive,
/// symmetric and transitive.
pub proof fn lemma_eq_is_equivalence<T>()
    ensures
        vstd::laws_eq::obeys_eq::<NoOrder<T>>(),
        forall|x: NoOrder<T>, y: NoOrder<T>| #[trigger] x.eq_spec(&y),
{
    reveal(vstd::laws_eq::obeys_eq_spec_properties);
}

/// The constant comparison satisfies the partial-order laws and is
/// consistent with the constant equality.
pub proof fn lemma_partial_cmp_is_lawful<T>()
    ensures
        vstd::laws_cmp::obeys_cmp_partial_ord::<NoOrder<T>>(),
        vstd::laws_cmp::obeys_partial_cmp_spec_properties::<NoOrder<T>>(),
{
    reveal(vstd::laws_cmp::obeys_cmp_partial_ord);
    reveal(vstd::laws_cmp::obeys_partial_cmp_spec_properties);
    reveal(vstd::laws_eq::obeys_eq_spec_properties);
}

} // verus!
