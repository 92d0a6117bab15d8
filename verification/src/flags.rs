use std::marker::PhantomData;
use std::sync::atomic::AtomicUsize;
use vstd::prelude::*;

verus! {

/// A set of flags kept as the bits of a `usize`.
pub trait Flags: Sized + Copy {
    /// The bits of this value.
    spec fn spec_bits(&self) -> usize;

    /// The union of the bits of every defined flag.
    spec fn spec_all() -> usize;

    /// The bits of this value.
    fn bits(&self) -> (res: usize)
        ensures
            res == self.spec_bits(),
    ;

    /// The union of the bits of every defined flag.
    fn all_bits() -> (res: usize)
        ensures
            res == Self::spec_all(),
    ;

    /// The value with exactly the given bits, defined as flags or not.
    fn from_bits_retain(bits: usize) -> (res: Self)
        ensures
            res.spec_bits() == bits,
    ;
}

/// The value with the bits of `bits` that belong to a defined flag.
pub fn from_bits_truncate<T: Flags>(bits: usize) -> (res: T)
    ensures
        res.spec_bits() == bits & T::spec_all(),
{
    T::from_bits_retain(bits & T::all_bits())
}

/// Whether all set bits of `other` are also set in `flags`.
pub fn contains<T: Flags>(flags: T, other: T) -> (res: bool)
    ensures
        res == (flags.spec_bits() & other.spec_bits() == other.spec_bits()),
{
    flags.bits() & other.bits() == other.bits()
}

/// Whether any set bit of `other` is also set in `flags`.
pub fn intersects<T: Flags>(flags: T, other: T) -> (res: bool)
    ensures
        res == (flags.spec_bits() & other.spec_bits() != 0),
{
    flags.bits() & other.bits() != 0
}

/// The bitwise or (`|`) of the bits in two flags values.
pub fn union<T: Flags>(flags: T, other: T) -> (res: T)
    ensures
        res.spec_bits() == flags.spec_bits() | other.spec_bits(),
{
    T::from_bits_retain(flags.bits() | other.bits())
}

/// What must be restyled when an entity changes.
#[derive(Clone, Copy, Debug, PartialEq, Eq, Structural)]
pub struct RecalculateOnChangeFlags {
    bits: usize,
}

impl Flags for RecalculateOnChangeFlags {
    closed spec fn spec_bits(&self) -> usize {
        self.bits
    }

    open spec fn spec_all() -> usize {
        0b111
    }

    fn bits(&self) -> (res: usize) {
        self.bits
    }

    fn all_bits() -> (res: usize) {
        0b111
    }

    fn from_bits_retain(bits: usize) -> (res: Self) {
        RecalculateOnChangeFlags { bits }
    }
}

impl RecalculateOnChangeFlags {
    /// No flag set.
    pub fn empty() -> (res: Self)
        ensures
            res.spec_bits() == 0,
    {
        RecalculateOnChangeFlags { bits: 0 }
    }

    /// The siblings of the entity must be restyled.
    pub fn recalculate_siblings() -> (res: Self)
        ensures
            res.spec_bits() == 0b001,
    {
        RecalculateOnChangeFlags { bits: 0b001 }
    }

    /// The descendants of the entity must be restyled.
    pub fn recalculate_descendants() -> (res: Self)
        ensures
            res.spec_bits() == 0b010,
    {
        RecalculateOnChangeFlags { bits: 0b010 }
    }

    /// The ancestors of the entity must be restyled.
    pub fn recalculate_ancestors() -> (res: Self)
        ensures
            res.spec_bits() == 0b100,
    {
        RecalculateOnChangeFlags { bits: 0b100 }
    }
}

/// Which media features the style of an entity depends on.
#[derive(Clone, Copy, Debug, PartialEq, Eq, Structural)]
pub struct DependsOnMediaFeaturesFlags {
    bits: usize,
}

impl Flags for DependsOnMediaFeaturesFlags {
    closed spec fn spec_bits(&self) -> usize {
        self.bits
    }

    open spec fn spec_all() -> usize {
        0b11
    }

    fn bits(&self) -> (res: usize) {
        self.bits
    }

    fn all_bits() -> (res: usize) {
        0b11
    }

    fn from_bits_retain(bits: usize) -> (res: Self) {
        DependsOnMediaFeaturesFlags { bits }
    }
}

impl DependsOnMediaFeaturesFlags {
    /// No flag set.
    pub fn empty() -> (res: Self)
        ensures
            res.spec_bits() == 0,
    {
        DependsOnMediaFeaturesFlags { bits: 0 }
    }

    /// The style depends on the target the entity is rendered to.
    pub fn depends_on_compute_target_info() -> (res: Self)
        ensures
            res.spec_bits() == 0b01,
    {
        DependsOnMediaFeaturesFlags { bits: 0b01 }
    }

    /// The style depends on the window.
    pub fn depends_on_window() -> (res: Self)
        ensures
            res.spec_bits() == 0b10,
    {
        DependsOnMediaFeaturesFlags { bits: 0b10 }
    }
}

/// Flags that can be read and set through a shared reference, from several
/// threads at once. Only defined flags are ever read back.
pub struct AtomicFlags<T: Flags> {
    value: AtomicUsize,
    _phantom: PhantomData<T>,
}

impl<T: Flags> AtomicFlags<T> {
    /// Flags with no bit set.
    pub fn new() -> (res: Self) {
        AtomicFlags { value: AtomicUsize::new(0), _phantom: PhantomData }
    }

    /// The flags currently set. Another thread may set more at any time, so
    /// only this is known of the result: it holds defined flags only.
    pub fn load(&self) -> (res: T)
        ensures
            res.spec_bits() & T::spec_all() == res.spec_bits(),
    {
        let bits = self.value.load(std::sync::atomic::Ordering::Relaxed);
        let res: T = from_bits_truncate(bits);
        proof {
            let all = T::spec_all();
            assert((bits & all) & all == bits & all) by (bit_vector);
        }
        res
    }

    /// Whether all set bits of `other` are currently set. Whatever the current
    /// flags, this holds when `other` is empty and fails when `other` has a bit
    /// that is no defined flag.
    pub fn contains(&self, other: T) -> (res: bool)
        ensures
            other.spec_bits() == 0 ==> res,
            other.spec_bits() & T::spec_all() != other.spec_bits() ==> !res,
    {
        let flags = self.load();
        let res = contains(flags, other);
        proof {
            let f = flags.spec_bits();
            let o = other.spec_bits();
            let all = T::spec_all();
            assert(o == 0 ==> f & o == o) by (bit_vector);
            assert(f & all == f && f & o == o ==> o & all == o) by (bit_vector);
        }
        res
    }

    /// Whether any set bit of `other` is currently set. Whatever the current
    /// flags, this fails when `other` has no defined flag.
    pub fn intersects(&self, other: T) -> (res: bool)
        ensures
            other.spec_bits() & T::spec_all() == 0 ==> !res,
    {
        let flags = self.load();
        let res = intersects(flags, other);
        proof {
            let f = flags.spec_bits();
            let o = other.spec_bits();
            let all = T::spec_all();
            assert(f & all == f && o & all == 0 ==> f & o == 0) by (bit_vector);
        }
        res
    }

    /// Sets the bits of `value`, keeping those already set.
    pub fn insert(&self, value: T) {
        self.value.fetch_or(value.bits(), std::sync::atomic::Ordering::Relaxed);
    }
}

/// Flags kept on every styled entity.
pub struct StyleFlags {
    /// What must be restyled when the entity changes.
    pub recalculate_on_change_flags: AtomicFlags<RecalculateOnChangeFlags>,
    /// Which media features the entity's style depends on.
    pub depends_on_media_flags: AtomicFlags<DependsOnMediaFeaturesFlags>,
}

impl StyleFlags {
    /// Flags with nothing set.
    pub fn new() -> (res: Self) {
        StyleFlags {
            recalculate_on_change_flags: AtomicFlags::new(),
            depends_on_media_flags: AtomicFlags::new(),
        }
    }

    /// Clears every flag.
    pub fn reset(&mut self) {
        *self = StyleFlags::new();
    }
}

/// Setting flags keeps the ones already set and adds the new ones.
pub proof fn lemma_union_contains_both<T: Flags>(a: T, b: T, u: T)
    requires
        u.spec_bits() == a.spec_bits() | b.spec_bits(),
    ensures
        u.spec_bits() & a.spec_bits() == a.spec_bits(),
        u.spec_bits() & b.spec_bits() == b.spec_bits(),
{
    let x = a.spec_bits();
    let y = b.spec_bits();
    assert((x | y) & x == x) by (bit_vector);
    assert((x | y) & y == y) by (bit_vector);
}

/// Setting flags that are already set changes nothing: the union of flags with
/// flags it already holds is the same flags, so setting a flag twice leaves it set.
pub proof fn lemma_union_is_idempotent<T: Flags>(a: T, b: T, once: T, twice: T)
    requires
        once.spec_bits() == a.spec_bits() | b.spec_bits(),
        twice.spec_bits() == once.spec_bits() | b.spec_bits(),
    ensures
        twice.spec_bits() == once.spec_bits(),
        twice.spec_bits() & b.spec_bits() == b.spec_bits(),
{
    let x = a.spec_bits();
    let y = b.spec_bits();
    assert((x | y) | y == x | y) by (bit_vector);
    assert((x | y) & y == y) by (bit_vector);
}

/// Containing a non-empty set of flags implies intersecting it.
pub proof fn lemma_contains_implies_intersects<T: Flags>(a: T, b: T)
    requires
        a.spec_bits() & b.spec_bits() == b.spec_bits(),
        b.spec_bits() != 0,
    ensures
        a.spec_bits() & b.spec_bits() != 0,
{
}

} // verus!
