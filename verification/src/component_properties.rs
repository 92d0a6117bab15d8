use crate::property_map::{ComponentPropertyId, ComputedValue, PropertyMap};
use std::any::TypeId;
use std::ops::Range;
use vstd::prelude::*;

verus! {

/// `std::any::TypeId`, carried through the registration without being read.
#[verifier::external_type_specification]
#[verifier::external_body]
pub struct ExTypeId(TypeId);

/// Whether some property in `[start, end)` holds a value in `values`.
pub open spec fn has_value_in<V>(values: Seq<ComputedValue<V>>, start: int, end: int) -> bool {
    exists|i: int| start <= i < end && 0 <= i < values.len() && #[trigger] values[i] is Value
}

/// Whether every property in `[start, end)` is unset in `values`.
pub open spec fn all_unset_in<V>(values: Seq<ComputedValue<V>>, start: int, end: int) -> bool {
    forall|i: int| start <= i < end ==> #[trigger] values[i] is Unset
}

/// The path of a property inside a component, such as `.margin.left`; empty
/// for the component as a whole.
#[derive(Clone, Debug)]
pub struct PropertyPath {
    path: String,
}

impl View for PropertyPath {
    type V = Seq<char>;

    closed spec fn view(&self) -> Seq<char> {
        self.path@
    }
}

impl PropertyPath {
    /// The empty path: the component as a whole.
    pub fn empty() -> (res: Self)
        ensures
            res@ == Seq::<char>::empty(),
    {
        PropertyPath { path: String::new() }
    }

    /// The path of the field or tuple index `segment` inside this path.
    pub fn child(&self, segment: &str) -> (res: Self)
        ensures
            res@ == self@ + seq!['.'] + segment@,
    {
        let mut path = self.path.clone();
        path.append(".");
        path.append(segment);
        proof {
            reveal_strlit(".");
        }
        PropertyPath { path }
    }

    /// The path as text.
    pub fn as_str(&self) -> (res: &str)
        ensures
            res@ == self@,
    {
        self.path.as_str()
    }
}

/// Extraction of the properties of a type as sub-properties of a component.
/// Makes sense mainly for types nested inside a component.
pub trait ExtractComponentProperties {
    /// Appends the properties of the type, as sub-properties of `parent_path`,
    /// to `define_property`, each with the `TypeId` of its value.
    fn extract_properties(
        parent_path: &PropertyPath,
        define_property: &mut Vec<(PropertyPath, TypeId)>,
    )
        ensures
            old(define_property)@.is_prefix_of(final(define_property)@),
    ;

    /// Appends the properties of the type, as root properties, to `define_property`.
    fn extract_root_properties(define_property: &mut Vec<(PropertyPath, TypeId)>)
        ensures
            old(define_property)@.is_prefix_of(final(define_property)@),
    {
        Self::extract_properties(&PropertyPath::empty(), define_property);
    }
}

/// `s` with the slots in `[start, end)` unset.
pub open spec fn unset_range<V>(s: Seq<ComputedValue<V>>, start: int, end: int) -> Seq<
    ComputedValue<V>,
> {
    Seq::new(s.len(), |i: int| if start <= i < end { ComputedValue::Unset } else { s[i] })
}

/// The values of the slots in `[start, end)` of `s` that hold one, each with its
/// property id, in increasing id order.
pub open spec fn value_writes<V>(s: Seq<ComputedValue<V>>, start: int, end: int) -> Seq<
    (ComponentPropertyId, V),
>
    decreases end - start,
{
    if end <= start {
        Seq::empty()
    } else {
        let earlier = value_writes(s, start, end - 1);
        match s[end - 1] {
            ComputedValue::Value(v) => earlier.push((ComponentPropertyId((end - 1) as usize), v)),
            ComputedValue::Unset => earlier,
        }
    }
}

/// The writes a [`PropertyValueTarget`] has received, oldest first.
pub type AppliedValues<V> = Seq<(ComponentPropertyId, V)>;

/// What a [`PropertyValueTarget`] answered to each write it received, oldest first.
pub type WriteOutcomes<E> = Seq<Result<(), E>>;

/// `n` accepted writes.
pub open spec fn accepted<E>(n: nat) -> WriteOutcomes<E> {
    Seq::new(n, |i: int| Ok::<(), E>(()))
}

/// Every write of `outcomes` was accepted.
pub open spec fn all_accepted<E>(outcomes: WriteOutcomes<E>) -> bool {
    forall|i: int| 0 <= i < outcomes.len() ==> #[trigger] outcomes[i] is Ok
}

/// The writes of `outcomes` were accepted up to the last one, which failed with `error`.
pub open spec fn failed_last<E>(outcomes: WriteOutcomes<E>, error: E) -> bool {
    &&& outcomes.len() > 0
    &&& outcomes.last() == Err::<(), E>(error)
    &&& all_accepted(outcomes.drop_last())
}

/// Something the values of a component's properties can be written into, one at a time.
pub trait PropertyValueTarget<V, E> {
    /// The writes received so far, oldest first.
    spec fn applied(&self) -> AppliedValues<V>;

    /// What was answered to each write received so far, oldest first.
    spec fn outcomes(&self) -> WriteOutcomes<E>;

    /// Writes `value` into the property `id`. The write is received whether or
    /// not it succeeds, and its answer is the result.
    fn apply_value(&mut self, id: ComponentPropertyId, value: V) -> (res: Result<(), E>)
        ensures
            final(self).applied() == old(self).applied().push((id, value)),
            final(self).outcomes() == old(self).outcomes().push(res),
    ;
}

/// A list records the writes it receives, in order, and accepts every one.
impl<V, E> PropertyValueTarget<V, E> for Vec<(ComponentPropertyId, V)> {
    open spec fn applied(&self) -> AppliedValues<V> {
        self@
    }

    open spec fn outcomes(&self) -> WriteOutcomes<E> {
        Seq::new(self@.len(), |i: int| Ok::<(), E>(()))
    }

    fn apply_value(&mut self, id: ComponentPropertyId, value: V) -> (res: Result<(), E>) {
        let ghost before = self@.len();
        self.push((id, value));
        let res: Result<(), E> = Ok(());
        proof {
            assert(Seq::new(self@.len(), |i: int| Ok::<(), E>(())) =~= Seq::new(
                before,
                |i: int| Ok::<(), E>(()),
            ).push(res));
        }
        res
    }
}

/// How the values of a component's properties reach the component.
#[derive(Clone, Copy, Debug, PartialEq, Eq, Structural)]
pub enum ApplyPlan {
    /// Nothing is read, borrowed or written.
    Skip,
    /// The present component is borrowed mutably and the values are written into it.
    ApplyInPlace,
    /// The present component is cloned, the values are written into the clone,
    /// and the clone is inserted again (immutable components).
    CloneAndReinsert,
    /// The component is absent: the values are written into its default value,
    /// which is then inserted.
    InsertDefault,
}

/// What is left to do with a component once values were written into it.
#[derive(Clone, Copy, Debug, PartialEq, Eq, Structural)]
pub enum ApplyAction {
    /// Insert the written component into the entity.
    InsertComponent,
    /// Announce with a `ComponentAutoInserted` event that the component was inserted.
    EmitAutoInserted,
}

/// The actions owed, in order, after the values were written into the target of
/// `plan`, `any_property_set` telling whether at least one value was written.
///
/// The written component is inserted exactly when it is a clone or a default
/// value and something was written into it; the event is emitted exactly when
/// a default value was inserted, after the insertion.
pub open spec fn spec_apply_actions(plan: ApplyPlan, any_property_set: bool) -> Seq<ApplyAction> {
    let insert = any_property_set && (plan == ApplyPlan::CloneAndReinsert || plan
        == ApplyPlan::InsertDefault);
    let announce = any_property_set && plan == ApplyPlan::InsertDefault;
    (if insert {
        seq![ApplyAction::InsertComponent]
    } else {
        Seq::empty()
    }) + (if announce {
        seq![ApplyAction::EmitAutoInserted]
    } else {
        Seq::empty()
    })
}

/// The actions owed, in order, after the values were written into the target of `plan`.
///
/// A present component that was changed in place needs nothing more; a clone or a
/// default value is inserted only when some property was written, and only an
/// inserted default announces itself, after it was inserted.
pub fn apply_actions(plan: ApplyPlan, any_property_set: bool) -> (res: Vec<ApplyAction>)
    ensures
        res@ == spec_apply_actions(plan, any_property_set),
{
    let mut res: Vec<ApplyAction> = Vec::new();
    if !any_property_set {
        assert(res@ =~= spec_apply_actions(plan, any_property_set));
        return res;
    }
    match plan {
        ApplyPlan::Skip | ApplyPlan::ApplyInPlace => {},
        ApplyPlan::CloneAndReinsert => {
            res.push(ApplyAction::InsertComponent);
        },
        ApplyPlan::InsertDefault => {
            res.push(ApplyAction::InsertComponent);
            res.push(ApplyAction::EmitAutoInserted);
        },
    }
    assert(res@ =~= spec_apply_actions(plan, any_property_set));
    res
}

/// Registration of the properties of one component type: the contiguous range of
/// property ids that belong to it, and how values reach it.
#[derive(Clone, Copy)]
pub struct ComponentPropertiesRegistration {
    component_type_path: &'static str,
    component_type_id: TypeId,
    is_mutable: bool,
    properties_start: ComponentPropertyId,
    properties_end: ComponentPropertyId,
    auto_insert_remove: bool,
}

impl ComponentPropertiesRegistration {
    /// First property id of the component.
    pub closed spec fn start(&self) -> int {
        self.properties_start.0 as int
    }

    /// One past the last property id of the component.
    pub closed spec fn end(&self) -> int {
        self.properties_end.0 as int
    }

    /// Property ids are indexes: the range of a component starts and ends at or after 0.
    pub proof fn lemma_range_is_natural(&self)
        ensures
            0 <= self.start(),
            0 <= self.end(),
    {
    }

    /// Whether the component is inserted when values arrive and removed when none remain.
    pub closed spec fn spec_auto_insert_remove(&self) -> bool {
        self.auto_insert_remove
    }

    /// Whether the component can be borrowed mutably in place.
    pub closed spec fn spec_is_mutable(&self) -> bool {
        self.is_mutable
    }

    /// The type path of the component.
    pub closed spec fn spec_type_path(&self) -> &'static str {
        self.component_type_path
    }

    /// The `TypeId` of the component.
    pub closed spec fn spec_type_id(&self) -> TypeId {
        self.component_type_id
    }

    /// Whether looking for a value among this component's properties in `values`
    /// stays inside the map: the map has a slot for each of them, or one of them
    /// holds a value before the first missing slot.
    pub open spec fn lookup_fits<V>(&self, values: Seq<ComputedValue<V>>) -> bool {
        ||| self.start() >= self.end()
        ||| self.end() <= values.len()
        ||| has_value_in(values, self.start(), values.len() as int)
    }

    /// The plan for a component that is handled through a shared reference.
    pub open spec fn spec_plan_apply_ref(&self, component_present: bool) -> ApplyPlan {
        if component_present {
            ApplyPlan::CloneAndReinsert
        } else if self.spec_auto_insert_remove() {
            ApplyPlan::InsertDefault
        } else {
            ApplyPlan::Skip
        }
    }

    /// The plan for a component that is handled through a mutable entity.
    pub open spec fn spec_plan_apply<V>(
        &self,
        values: Seq<ComputedValue<V>>,
        component_present: bool,
    ) -> ApplyPlan {
        if !self.spec_is_mutable() {
            self.spec_plan_apply_ref(component_present)
        } else if !has_value_in(values, self.start(), self.end()) {
            ApplyPlan::Skip
        } else if component_present {
            ApplyPlan::ApplyInPlace
        } else if self.spec_auto_insert_remove() {
            ApplyPlan::InsertDefault
        } else {
            ApplyPlan::Skip
        }
    }

    /// Whether the component is to be removed from an entity.
    pub open spec fn spec_should_auto_remove<V>(
        &self,
        component_present: bool,
        values: Seq<ComputedValue<V>>,
    ) -> bool {
        &&& self.spec_auto_insert_remove()
        &&& component_present
        &&& all_unset_in(values, self.start(), self.end())
    }

    /// Creates a new registration for the component with the given type path and id,
    /// owning the property ids in `registered_properties`.
    pub fn new(
        component_type_path: &'static str,
        component_type_id: TypeId,
        is_mutable: bool,
        registered_properties: Range<ComponentPropertyId>,
        auto_insert_remove: bool,
    ) -> (res: Self)
        ensures
            res.spec_type_path() == component_type_path,
            res.spec_type_id() == component_type_id,
            res.spec_is_mutable() == is_mutable,
            res.start() == registered_properties.start.0,
            res.end() == registered_properties.end.0,
            res.spec_auto_insert_remove() == auto_insert_remove,
    {
        ComponentPropertiesRegistration {
            component_type_path,
            component_type_id,
            is_mutable,
            properties_start: registered_properties.start,
            properties_end: registered_properties.end,
            auto_insert_remove,
        }
    }

    /// Returns the type path of the component.
    pub fn component_type_path(&self) -> (res: &'static str)
        ensures
            res == self.spec_type_path(),
    {
        self.component_type_path
    }

    /// Returns the TypeId of the component.
    pub fn component_type_id(&self) -> (res: TypeId)
        ensures
            res == self.spec_type_id(),
    {
        self.component_type_id
    }

    /// Whether the component is inserted when values arrive and removed when none remain.
    pub fn auto_insert_remove(&self) -> (res: bool)
        ensures
            res == self.spec_auto_insert_remove(),
    {
        self.auto_insert_remove
    }

    /// Whether the component can be borrowed mutably in place.
    pub fn is_mutable(&self) -> (res: bool)
        ensures
            res == self.spec_is_mutable(),
    {
        self.is_mutable
    }

    /// Returns this component's property ids, in increasing order.
    pub fn iter_properties(&self) -> (res: Vec<ComponentPropertyId>)
        ensures
            res@.len() == if self.start() < self.end() {
                self.end() - self.start()
            } else {
                0
            },
            forall|i: int| 0 <= i < res@.len() ==> #[trigger] res@[i].0 == self.start() + i,
    {
        let (start, end) = (self.properties_start, self.properties_end);
        let mut res: Vec<ComponentPropertyId> = Vec::new();
        let mut id: usize = start.0;
        while id < end.0
            invariant
                start.0 <= id,
                start.0 < end.0 ==> id <= end.0,
                start.0 >= end.0 ==> id == start.0,
                start.0 == self.start(),
                end.0 == self.end(),
                res@.len() == id - start.0,
                forall|i: int| 0 <= i < res@.len() ==> #[trigger] res@[i].0 == self.start() + i,
            decreases end.0 - id,
        {
            res.push(ComponentPropertyId(id));
            id = id + 1;
        }
        res
    }

    /// Returns the range of this component's property ids.
    pub fn properties_range(&self) -> (res: Range<ComponentPropertyId>)
        ensures
            res.start.0 == self.start(),
            res.end.0 == self.end(),
    {
        let (start, end) = (self.properties_start, self.properties_end);
        start..end
    }

    /// Whether `values` holds a value for any of this component's properties.
    ///
    /// Asked before borrowing the component mutably: the borrow flags the
    /// component as changed whether or not anything is then written.
    pub fn has_values_for<V>(&self, values: &PropertyMap<ComputedValue<V>>) -> (res: bool)
        requires
            self.lookup_fits(values@),
        ensures
            res == has_value_in(values@, self.start(), self.end()),
    {
        let (start, end) = (self.properties_start, self.properties_end);
        let mut id: usize = start.0;
        while id < end.0
            invariant
                start.0 == self.start(),
                end.0 == self.end(),
                start.0 <= id,
                id < end.0 ==> (end.0 <= values@.len() || has_value_in(
                    values@,
                    id as int,
                    values@.len() as int,
                )),
                all_unset_in(values@, self.start(), id as int),
            decreases end.0 - id,
        {
            if values.get(ComponentPropertyId(id)).is_value() {
                assert(values@[id as int] is Value);
                return true;
            }
            proof {
                if end.0 > values@.len() {
                    let k = choose|k: int|
                        id <= k < values@.len() && 0 <= k < values@.len()
                            && #[trigger] values@[k] is Value;
                    assert(k != id);
                }
            }
            id = id + 1;
        }
        proof {
            if has_value_in(values@, self.start(), self.end()) {
                let i = choose|i: int|
                    self.start() <= i < self.end() && 0 <= i < values@.len()
                        && #[trigger] values@[i] is Value;
                assert(values@[i] is Unset);
            }
        }
        false
    }

    /// Whether writing this component's values ran to the end: every slot of the
    /// component that held a value in `before` was written into the target, in
    /// increasing id order (`written`), and is unset in `after`.
    pub open spec fn spec_wrote_all<V>(
        &self,
        before: Seq<ComputedValue<V>>,
        after: Seq<ComputedValue<V>>,
        written: AppliedValues<V>,
    ) -> bool {
        &&& after == unset_range(before, self.start(), self.end())
        &&& written == value_writes(before, self.start(), self.end())
    }

    /// Whether writing this component's values stopped at a failed write: for
    /// some slot `k` of the component holding a value, the slots up to `k` were
    /// taken and their values written in increasing id order, the value of `k`
    /// last, and the later slots were neither taken nor written.
    pub open spec fn spec_stopped_at_failure<V>(
        &self,
        before: Seq<ComputedValue<V>>,
        after: Seq<ComputedValue<V>>,
        written: AppliedValues<V>,
    ) -> bool {
        exists|k: int|
            self.start() <= k < self.end() && #[trigger] before[k] is Value && after
                == unset_range(before, self.start(), k + 1) && written == value_writes(
                before,
                self.start(),
                k + 1,
            )
    }

    /// Writes this component's values into `target`, in increasing property id
    /// order, taking each one out of `values`.
    ///
    /// Returns whether any value was written. The result is an error exactly
    /// when a write failed: the first failed write stops the walk and its error
    /// is returned; the slots up to and including the failing one have been
    /// taken, the later ones are left as they were and are not written.
    pub fn internal_apply_values<V, E, A: PropertyValueTarget<V, E>>(
        &self,
        target: &mut A,
        values: &mut PropertyMap<ComputedValue<V>>,
    ) -> (res: Result<bool, E>)
        requires
            self.start() >= self.end() || self.end() <= old(values)@.len(),
        ensures
            final(values)@.len() == old(values)@.len(),
            final(target).applied().subrange(0, old(target).applied().len() as int) == old(
                target,
            ).applied(),
            final(target).applied().len() >= old(target).applied().len(),
            final(target).outcomes().subrange(0, old(target).outcomes().len() as int) == old(
                target,
            ).outcomes(),
            final(target).outcomes().len() - old(target).outcomes().len()
                == final(target).applied().len() - old(target).applied().len(),
            match res {
                Ok(any_property_set) => {
                    &&& any_property_set == has_value_in(old(values)@, self.start(), self.end())
                    &&& self.spec_wrote_all(
                        old(values)@,
                        final(values)@,
                        final(target).applied().skip(old(target).applied().len() as int),
                    )
                    &&& all_accepted(
                        final(target).outcomes().skip(old(target).outcomes().len() as int),
                    )
                },
                Err(error) => {
                    &&& self.spec_stopped_at_failure(
                        old(values)@,
                        final(values)@,
                        final(target).applied().skip(old(target).applied().len() as int),
                    )
                    &&& failed_last(
                        final(target).outcomes().skip(old(target).outcomes().len() as int),
                        error,
                    )
                },
            },
    {
        let (start, end) = (self.properties_start, self.properties_end);
        let ghost original = values@;
        let ghost before = target.applied();
        let ghost answers = target.outcomes();
        let mut any_property_set = false;
        let mut id: usize = start.0;
        proof {
            assert(values@ =~= unset_range(original, start.0 as int, id as int));
            assert(target.applied() =~= before + value_writes(original, start.0 as int, id as int));
            assert(target.outcomes() =~= answers + accepted(
                value_writes(original, start.0 as int, id as int).len(),
            ));
        }
        while id < end.0
            invariant
                start.0 == self.start(),
                end.0 == self.end(),
                start.0 <= id,
                id < end.0 ==> end.0 <= original.len(),
                start.0 < end.0 ==> id <= end.0,
                start.0 >= end.0 ==> id == start.0,
                original == old(values)@,
                before == old(target).applied(),
                values@ == unset_range(original, self.start(), id as int),
                target.applied() == before + value_writes(original, self.start(), id as int),
                answers == old(target).outcomes(),
                target.outcomes() == answers + accepted::<E>(
                    value_writes(original, self.start(), id as int).len(),
                ),
                any_property_set == has_value_in(original, self.start(), id as int),
            decreases end.0 - id,
        {
            let current = ComponentPropertyId(id);
            let taken = values.take(current);
            proof {
                assert(values@ =~= unset_range(original, self.start(), id + 1));
                assert(taken == original[id as int]);
            }
            match taken {
                ComputedValue::Unset => {
                    proof {
                        if has_value_in(original, self.start(), id + 1) {
                            let i = choose|i: int|
                                self.start() <= i < id + 1 && 0 <= i < original.len()
                                    && #[trigger] original[i] is Value;
                            assert(has_value_in(original, self.start(), id as int));
                        }
                    }
                },
                ComputedValue::Value(value) => {
                    proof {
                        assert(has_value_in(original, self.start(), id + 1));
                    }
                    any_property_set = true;
                    let ghost done = value_writes(original, self.start(), id as int).len();
                    let ghost prev_out = target.outcomes();
                    let outcome = target.apply_value(current, value);
                    proof {
                        assert(prev_out == answers + accepted::<E>(done));
                        assert(target.outcomes() == prev_out.push(outcome));
                        assert(target.applied() =~= before + value_writes(
                            original,
                            self.start(),
                            id + 1,
                        ));
                        assert(value_writes(original, self.start(), id + 1).len() == done + 1);
                    }
                    match outcome {
                        Ok(accepted_write) => {
                            proof {
                                assert(accepted_write == ());
                                assert(outcome == Ok::<(), E>(()));
                                assert(target.outcomes() == answers + accepted::<E>(done) + seq![
                                    Ok::<(), E>(()),
                                ]);
                                assert(accepted::<E>(done) + seq![Ok::<(), E>(())] =~= accepted::<
                                    E,
                                >(done + 1));
                                assert(target.outcomes() =~= answers + accepted::<E>(done + 1));
                            }
                        },
                        Err(err) => {
                            proof {
                                let fresh = target.outcomes().skip(answers.len() as int);
                                assert(fresh =~= accepted::<E>(done).push(Err::<(), E>(err)));
                                assert(fresh.drop_last() =~= accepted::<E>(done));
                                assert(target.outcomes().subrange(0, answers.len() as int)
                                    =~= answers);
                                assert(original[id as int] is Value);
                                assert(target.applied().skip(before.len() as int)
                                    =~= value_writes(original, self.start(), id + 1));
                                assert(target.applied().subrange(0, before.len() as int)
                                    =~= before);
                            }
                            return Err(err);
                        },
                    }
                },
            }
            id = id + 1;
        }
        proof {
            assert(target.applied().skip(before.len() as int) =~= value_writes(
                original,
                self.start(),
                id as int,
            ));
            assert(target.applied().subrange(0, before.len() as int) =~= before);
            assert(target.outcomes().skip(answers.len() as int) =~= accepted::<E>(
                value_writes(original, self.start(), id as int).len(),
            ));
            assert(target.outcomes().subrange(0, answers.len() as int) =~= answers);
            if start.0 >= end.0 {
                assert(unset_range(original, self.start(), id as int) =~= unset_range(
                    original,
                    self.start(),
                    self.end(),
                ));
                assert(value_writes(original, self.start(), self.end()) =~= Seq::empty());
                assert(!has_value_in(original, self.start(), self.end()));
            }
        }
        Ok(any_property_set)
    }

    /// What applying this component's values as `plan` says does, `before` and
    /// `after` being the property map and `received` and `now` the target before
    /// and after, `res` the result:
    /// - the target keeps the writes and answers it had received;
    /// - under [`ApplyPlan::Skip`] nothing is taken or written and nothing is left to do;
    /// - otherwise, on success every value slot of the component was written in
    ///   increasing id order and taken, every write was accepted, and the actions
    ///   are those of [`spec_apply_actions`]; on error the walk stopped at the
    ///   first write that failed, whose error is the result.
    pub open spec fn spec_applied_as_planned<V, E, A: PropertyValueTarget<V, E>>(
        &self,
        plan: ApplyPlan,
        before: Seq<ComputedValue<V>>,
        after: Seq<ComputedValue<V>>,
        received: A,
        now: A,
        res: Result<Vec<ApplyAction>, E>,
    ) -> bool {
        let old_writes = received.applied().len() as int;
        let old_answers = received.outcomes().len() as int;
        let writes = now.applied().skip(old_writes);
        let answers = now.outcomes().skip(old_answers);
        &&& now.applied().subrange(0, old_writes) == received.applied()
        &&& now.applied().len() >= old_writes
        &&& now.outcomes().subrange(0, old_answers) == received.outcomes()
        &&& now.outcomes().len() - old_answers == now.applied().len() - old_writes
        &&& if plan == ApplyPlan::Skip {
            &&& res matches Ok(actions) && actions@ == Seq::<ApplyAction>::empty()
            &&& after == before
            &&& now.applied() == received.applied()
        } else {
            match res {
                Ok(actions) => {
                    &&& actions@ == spec_apply_actions(
                        plan,
                        has_value_in(before, self.start(), self.end()),
                    )
                    &&& self.spec_wrote_all(before, after, writes)
                    &&& all_accepted(answers)
                },
                Err(error) => {
                    &&& self.spec_stopped_at_failure(before, after, writes)
                    &&& failed_last(answers, error)
                },
            }
        }
    }

    /// Writes this component's values into `target`, the component that `plan`
    /// chose (the present one, its clone, or its default value), and returns what
    /// is left to do with it, in order.
    ///
    /// Under [`ApplyPlan::Skip`] nothing is taken or written. Otherwise the walk is
    /// that of [`Self::internal_apply_values`], and the actions are those of
    /// [`apply_actions`] for whether something was written.
    pub fn apply_planned_values<V, E, A: PropertyValueTarget<V, E>>(
        &self,
        plan: ApplyPlan,
        target: &mut A,
        values: &mut PropertyMap<ComputedValue<V>>,
    ) -> (res: Result<Vec<ApplyAction>, E>)
        requires
            plan != ApplyPlan::Skip ==> self.start() >= self.end() || self.end() <= old(
                values,
            )@.len(),
        ensures
            final(values)@.len() == old(values)@.len(),
            self.spec_applied_as_planned(
                plan,
                old(values)@,
                final(values)@,
                *old(target),
                *final(target),
                res,
            ),
    {
        if plan == ApplyPlan::Skip {
            proof {
                assert(target.applied().subrange(0, target.applied().len() as int)
                    =~= target.applied());
                assert(target.outcomes().subrange(0, target.outcomes().len() as int)
                    =~= target.outcomes());
            }
            let none: Vec<ApplyAction> = Vec::new();
            assert(none@ =~= Seq::<ApplyAction>::empty());
            return Ok(none);
        }
        let any_property_set = self.internal_apply_values(target, values)?;
        Ok(apply_actions(plan, any_property_set))
    }

    /// The plan for applying this component's values to an entity seen through a
    /// shared reference: a present component is cloned and inserted again, an
    /// absent one is inserted from its default value when auto insertion is
    /// configured, and otherwise nothing happens.
    pub fn plan_apply_ref(&self, component_present: bool) -> (res: ApplyPlan)
        ensures
            res == self.spec_plan_apply_ref(component_present),
    {
        if component_present {
            ApplyPlan::CloneAndReinsert
        } else if self.auto_insert_remove {
            ApplyPlan::InsertDefault
        } else {
            ApplyPlan::Skip
        }
    }

    /// The plan for applying this component's values to an entity seen mutably.
    ///
    /// Immutable components go through [`Self::plan_apply_ref`]. A mutable
    /// component is left alone, not even borrowed, when `values` holds nothing
    /// for it; otherwise it is written in place when present, or inserted from
    /// its default value when absent and auto insertion is configured.
    pub fn plan_apply<V>(&self, values: &PropertyMap<ComputedValue<V>>, component_present: bool) -> (res: ApplyPlan)
        requires
            self.spec_is_mutable() ==> self.lookup_fits(values@),
        ensures
            res == self.spec_plan_apply(values@, component_present),
    {
        if !self.is_mutable {
            return self.plan_apply_ref(component_present);
        }
        if !self.has_values_for(values) {
            return ApplyPlan::Skip;
        }
        if component_present {
            ApplyPlan::ApplyInPlace
        } else if self.auto_insert_remove {
            ApplyPlan::InsertDefault
        } else {
            ApplyPlan::Skip
        }
    }

    /// Whether the component must be removed from an entity: auto removal is
    /// configured, the entity has the component, and all the component's
    /// properties are unset in `values`.
    pub fn should_auto_remove<V>(
        &self,
        component_present: bool,
        values: &PropertyMap<ComputedValue<V>>,
    ) -> (res: bool)
        requires
            self.spec_auto_insert_remove() && component_present ==> self.start() <= self.end()
                <= values@.len(),
        ensures
            res == self.spec_should_auto_remove(component_present, values@),
    {
        if !(self.auto_insert_remove && component_present) {
            return false;
        }
        let (start, end) = (self.properties_start, self.properties_end);
        let mut id: usize = start.0;
        while id < end.0
            invariant
                start.0 == self.start(),
                end.0 == self.end(),
                start.0 <= id <= end.0,
                end.0 <= values@.len(),
                all_unset_in(values@, self.start(), id as int),
            decreases end.0 - id,
        {
            if !values.get(ComponentPropertyId(id)).is_none() {
                assert(!all_unset_in(values@, self.start(), self.end())) by {
                    assert(values@[id as int] is Value);
                }
                return false;
            }
            id = id + 1;
        }
        true
    }
}

} // verus!

verus! {

/// Whether a component's properties can hold a value depends on its own slots
/// only: two property maps that agree on which of the component's slots hold a
/// value lead to the same plan.
pub proof fn lemma_plan_depends_only_on_own_properties<V>(
    registration: ComponentPropertiesRegistration,
    a: Seq<ComputedValue<V>>,
    b: Seq<ComputedValue<V>>,
    component_present: bool,
)
    requires
        registration.end() <= a.len(),
        registration.end() <= b.len(),
        forall|i: int|
            registration.start() <= i < registration.end() ==> (#[trigger] a[i] is Value) == (
            b[i] is Value),
    ensures
        registration.spec_plan_apply(a, component_present) == registration.spec_plan_apply(
            b,
            component_present,
        ),
{
    if has_value_in(a, registration.start(), registration.end()) {
        let i = choose|i: int|
            registration.start() <= i < registration.end() && 0 <= i < a.len()
                && #[trigger] a[i] is Value;
        assert(b[i] is Value);
    }
    if has_value_in(b, registration.start(), registration.end()) {
        let i = choose|i: int|
            registration.start() <= i < registration.end() && 0 <= i < b.len()
                && #[trigger] b[i] is Value;
        assert(a[i] is Value);
    }
}

/// No value is written from a range of slots that are all unset.
pub proof fn lemma_unset_slots_write_nothing<V>(s: Seq<ComputedValue<V>>, start: int, end: int)
    requires
        all_unset_in(s, start, end),
    ensures
        value_writes(s, start, end) == Seq::<(ComponentPropertyId, V)>::empty(),
    decreases end - start,
{
    if end > start {
        assert(s[end - 1] is Unset);
        lemma_unset_slots_write_nothing(s, start, end - 1);
    }
}

/// Applying values succeeds exactly when every write was accepted: when a plan
/// writes anything, the result is `Ok` if and only if the target accepted every
/// write it received during the apply.
pub proof fn lemma_success_iff_every_write_accepted<V, E, A: PropertyValueTarget<V, E>>(
    registration: ComponentPropertiesRegistration,
    plan: ApplyPlan,
    before: Seq<ComputedValue<V>>,
    after: Seq<ComputedValue<V>>,
    received: A,
    now: A,
    res: Result<Vec<ApplyAction>, E>,
)
    requires
        registration.spec_applied_as_planned(plan, before, after, received, now, res),
    ensures
        (res is Ok) <==> all_accepted(now.outcomes().skip(received.outcomes().len() as int)),
{
    let answers = now.outcomes().skip(received.outcomes().len() as int);
    if plan == ApplyPlan::Skip {
        assert(answers.len() == 0);
    }
    if let Err(error) = res {
        assert(answers[answers.len() - 1] == Err::<(), E>(error));
    }
}

/// Whether a component is removed depends on its own slots only: with auto
/// removal configured and the component present, it is removed exactly when
/// every one of its own properties is unset, whatever the other slots hold; and
/// two maps that agree on which of its own slots hold a value give the same
/// answer.
pub proof fn lemma_removal_depends_only_on_own_slots<V>(
    registration: ComponentPropertiesRegistration,
    a: Seq<ComputedValue<V>>,
    b: Seq<ComputedValue<V>>,
    component_present: bool,
)
    requires
        forall|i: int|
            registration.start() <= i < registration.end() ==> (#[trigger] a[i] is Unset) == (
            b[i] is Unset),
    ensures
        registration.spec_should_auto_remove(component_present, a)
            == registration.spec_should_auto_remove(component_present, b),
        registration.spec_auto_insert_remove() && component_present && (forall|i: int|
            registration.start() <= i < registration.end() ==> #[trigger] a[i] is Unset)
            ==> registration.spec_should_auto_remove(component_present, a),
        (exists|i: int|
            registration.start() <= i < registration.end() && #[trigger] a[i] is Value)
            ==> !registration.spec_should_auto_remove(component_present, a),
        !registration.spec_auto_insert_remove() ==> !registration.spec_should_auto_remove(
            component_present,
            a,
        ),
        !component_present ==> !registration.spec_should_auto_remove(component_present, a),
{
    let (start, end) = (registration.start(), registration.end());
    if all_unset_in(a, start, end) {
        assert forall|i: int| start <= i < end implies #[trigger] b[i] is Unset by {
            assert(a[i] is Unset);
        }
    }
    if all_unset_in(b, start, end) {
        assert forall|i: int| start <= i < end implies #[trigger] a[i] is Unset by {
            assert(b[i] is Unset);
        }
    }
}

/// A component is never removed while one of its properties still holds a value.
pub proof fn lemma_values_prevent_auto_remove<V>(
    registration: ComponentPropertiesRegistration,
    values: Seq<ComputedValue<V>>,
    component_present: bool,
)
    requires
        has_value_in(values, registration.start(), registration.end()),
    ensures
        !registration.spec_should_auto_remove(component_present, values),
{
    let i = choose|i: int|
        registration.start() <= i < registration.end() && 0 <= i < values.len()
            && #[trigger] values[i] is Value;
}

/// Writing a component's values consumes them: afterwards none of its properties
/// holds a value, every other slot is as it was, and applying the map again to a
/// mutable component does nothing.
pub proof fn lemma_applied_values_are_consumed<V>(
    registration: ComponentPropertiesRegistration,
    before: Seq<ComputedValue<V>>,
    after: Seq<ComputedValue<V>>,
    component_present: bool,
)
    requires
        after == unset_range(before, registration.start(), registration.end()),
    ensures
        after.len() == before.len(),
        all_unset_in(after, registration.start(), registration.end()) || registration.end()
            > before.len(),
        !has_value_in(after, registration.start(), registration.end()),
        forall|i: int|
            0 <= i < before.len() && !(registration.start() <= i < registration.end())
                ==> #[trigger] after[i] == before[i],
        registration.spec_is_mutable() ==> registration.spec_plan_apply(after, component_present)
            == ApplyPlan::Skip,
{
    if registration.end() <= before.len() {
        assert forall|i: int|
            registration.start() <= i < registration.end() implies #[trigger] after[i] is Unset by {
            assert(0 <= i < before.len() || i < 0);
        }
    }
}

} // verus!
