use vstd::prelude::*;

verus! {

/// Identifier of a single component property: its index in a [`PropertyMap`].
#[derive(Clone, Copy, Debug, PartialEq, Eq, Hash)]
pub struct ComponentPropertyId(pub usize);

/// The value computed for one property: either nothing, or a value to set.
#[derive(Clone, Copy, Debug, PartialEq, Eq)]
pub enum ComputedValue<V> {
    /// No value is set for the property.
    Unset,
    /// A value that should be written into the component.
    Value(V),
}

impl<V> ComputedValue<V> {
    /// Whether this is [`ComputedValue::Unset`].
    pub fn is_none(&self) -> (res: bool)
        ensures
            res == (*self is Unset),
    {
        match self {
            ComputedValue::Unset => true,
            ComputedValue::Value(_) => false,
        }
    }

    /// Whether this holds a value.
    pub fn is_value(&self) -> (res: bool)
        ensures
            res == (*self is Value),
    {
        match self {
            ComputedValue::Unset => false,
            ComputedValue::Value(_) => true,
        }
    }
}

/// A dense map from [`ComponentPropertyId`] to a value of type `T`,
/// one slot per registered property.
#[derive(Clone, Debug)]
pub struct PropertyMap<T> {
    slots: Vec<T>,
}

impl<T> View for PropertyMap<T> {
    type V = Seq<T>;

    closed spec fn view(&self) -> Seq<T> {
        self.slots@
    }
}

impl<T> PropertyMap<T> {
    /// Number of properties the map has a slot for.
    pub fn len(&self) -> (res: usize)
        ensures
            res == self@.len(),
    {
        self.slots.len()
    }

    /// The value of property `id`.
    pub fn get(&self, id: ComponentPropertyId) -> (res: &T)
        requires
            id.0 < self@.len(),
        ensures
            *res == self@[id.0 as int],
    {
        &self.slots[id.0]
    }

    /// Replaces the value of property `id`.
    pub fn set(&mut self, id: ComponentPropertyId, value: T)
        requires
            id.0 < old(self)@.len(),
        ensures
            final(self)@ == old(self)@.update(id.0 as int, value),
    {
        self.slots.set(id.0, value);
    }
}

impl<V> PropertyMap<ComputedValue<V>> {
    /// A map of `len` slots, all [`ComputedValue::Unset`].
    pub fn new_empty(len: usize) -> (res: Self)
        ensures
            res@.len() == len,
            forall|i: int| 0 <= i < len ==> #[trigger] res@[i] is Unset,
    {
        let mut slots: Vec<ComputedValue<V>> = Vec::new();
        let mut i: usize = 0;
        while i < len
            invariant
                i <= len,
                slots@.len() == i,
                forall|j: int| 0 <= j < i ==> #[trigger] slots@[j] is Unset,
            decreases len - i,
        {
            slots.push(ComputedValue::Unset);
            i = i + 1;
        }
        PropertyMap { slots }
    }

    /// Takes the value of property `id`, leaving [`ComputedValue::Unset`] in its place.
    pub fn take(&mut self, id: ComponentPropertyId) -> (res: ComputedValue<V>)
        requires
            id.0 < old(self)@.len(),
        ensures
            res == old(self)@[id.0 as int],
            final(self)@ == old(self)@.update(id.0 as int, ComputedValue::Unset),
    {
        let mut taken = ComputedValue::Unset;
        std::mem::swap(&mut taken, &mut self.slots[id.0]);
        taken
    }
}

} // verus!
