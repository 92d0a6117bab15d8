use crate::component_properties::{
    ApplyPlan, ComponentPropertiesRegistration, all_unset_in, has_value_in,
    lemma_unset_slots_write_nothing, spec_apply_actions, value_writes, ApplyAction,
    PropertyValueTarget,
};
use crate::property_map::{ComponentPropertyId, ComputedValue, PropertyMap};
use vstd::prelude::*;

verus! {

/// The property map of `len` slots in which each change of `changes` has been
/// written in turn, a later change of a property overriding an earlier one.
pub open spec fn spec_pending_changes<V>(len: nat, changes: Seq<(ComponentPropertyId, V)>) -> Seq<
    ComputedValue<V>,
>
    decreases changes.len(),
{
    if changes.len() == 0 {
        Seq::new(len, |i: int| ComputedValue::Unset)
    } else {
        let last = changes.last();
        let prefix = spec_pending_changes(len, changes.drop_last());
        if last.0.0 < len {
            prefix.update(last.0.0 as int, ComputedValue::Value(last.1))
        } else {
            prefix
        }
    }
}

/// Every change of `changes` names a property of a map of `len` slots.
pub open spec fn changes_fit<V>(len: nat, changes: Seq<(ComponentPropertyId, V)>) -> bool {
    forall|k: int| 0 <= k < changes.len() ==> #[trigger] changes[k].0.0 < len
}

proof fn lemma_pending_changes_len<V>(len: nat, changes: Seq<(ComponentPropertyId, V)>)
    ensures
        spec_pending_changes(len, changes).len() == len,
    decreases changes.len(),
{
    if changes.len() > 0 {
        lemma_pending_changes_len(len, changes.drop_last());
    }
}

/// A slot of the pending map holds a value exactly when some change names its property.
proof fn lemma_pending_changes_slots<V>(len: nat, changes: Seq<(ComponentPropertyId, V)>, i: int)
    requires
        0 <= i < len,
    ensures
        (spec_pending_changes(len, changes)[i] is Value) <==> (exists|k: int|
            0 <= k < changes.len() && #[trigger] changes[k].0.0 == i),
    decreases changes.len(),
{
    lemma_pending_changes_len(len, changes);
    if changes.len() > 0 {
        let prefix = changes.drop_last();
        lemma_pending_changes_slots(len, prefix, i);
        lemma_pending_changes_len(len, prefix);
        if spec_pending_changes(len, changes)[i] is Value {
            if changes.last().0.0 == i {
                assert(changes[changes.len() - 1].0.0 == i);
            } else {
                assert(spec_pending_changes(len, prefix)[i] is Value);
                let k = choose|k: int| 0 <= k < prefix.len() && #[trigger] prefix[k].0.0 == i;
                assert(changes[k].0.0 == i);
            }
        }
        if exists|k: int| 0 <= k < changes.len() && #[trigger] changes[k].0.0 == i {
            let k = choose|k: int| 0 <= k < changes.len() && #[trigger] changes[k].0.0 == i;
            if k < changes.len() - 1 {
                assert(prefix[k].0.0 == i);
            }
        }
    }
}

/// Gathers the changes computed for one entity into a fresh property map of
/// `len` slots, a later change of a property overriding an earlier one.
/// Returns the map, and whether the entity was modified at all.
pub fn pending_changes<V>(len: usize, changes: Vec<(ComponentPropertyId, V)>) -> (res: (
    PropertyMap<ComputedValue<V>>,
    bool,
))
    requires
        changes_fit(len as nat, changes@),
    ensures
        res.0@ == spec_pending_changes(len as nat, changes@),
        res.1 == (changes@.len() > 0),
{
    let mut map: PropertyMap<ComputedValue<V>> = PropertyMap::new_empty(len);
    proof {
        assert(map@ =~= spec_pending_changes(len as nat, changes@.take(0)));
    }
    let mut modified = false;
    let ghost all = changes@;
    assert(all.len() == changes.len());
    let mut changes = changes;
    let mut n: usize = 0;
    while changes.len() > 0
        invariant
            0 <= n <= all.len(),
            all.len() <= usize::MAX,
            changes@ == all.skip(n as int),
            changes_fit(len as nat, all),
            map@ == spec_pending_changes(len as nat, all.take(n as int)),
            modified == (n > 0),
        decreases changes.len(),
    {
        assert(changes@.len() == all.len() - n);
        let (id, value) = changes.remove(0);
        proof {
            assert(id == all[n as int].0);
            assert(value == all[n as int].1);
            assert(all.take(n + 1).drop_last() =~= all.take(n as int));
            lemma_pending_changes_len(len as nat, all.take(n as int));
            assert(all[n as int].0.0 < len);
            assert(changes@ =~= all.skip(n + 1));
        }
        map.set(id, ComputedValue::Value(value));
        modified = true;
        n = n + 1;
    }
    proof {
        assert(all.take(all.len() as int) =~= all);
    }
    (map, modified)
}

/// The plan of every registered component for one entity: `component_present[i]`
/// tells whether the entity has the component of `registrations[i]`.
pub fn plan_entity_restyle<V>(
    registrations: &Vec<ComponentPropertiesRegistration>,
    pending: &PropertyMap<ComputedValue<V>>,
    component_present: &Vec<bool>,
) -> (res: Vec<ApplyPlan>)
    requires
        registrations@.len() == component_present@.len(),
        forall|i: int|
            0 <= i < registrations@.len() ==> (#[trigger] registrations@[i]).spec_is_mutable()
                ==> registrations@[i].lookup_fits(pending@),
    ensures
        res@.len() == registrations@.len(),
        forall|i: int|
            0 <= i < res@.len() ==> #[trigger] res@[i] == registrations@[i].spec_plan_apply(
                pending@,
                component_present@[i],
            ),
{
    let mut res: Vec<ApplyPlan> = Vec::new();
    let mut i: usize = 0;
    while i < registrations.len()
        invariant
            i <= registrations@.len(),
            registrations@.len() == component_present@.len(),
            forall|j: int|
                0 <= j < registrations@.len() ==> (#[trigger] registrations@[j]).spec_is_mutable()
                    ==> registrations@[j].lookup_fits(pending@),
            res@.len() == i,
            forall|j: int|
                0 <= j < i ==> #[trigger] res@[j] == registrations@[j].spec_plan_apply(
                    pending@,
                    component_present@[j],
                ),
        decreases registrations@.len() - i,
    {
        let plan = registrations[i].plan_apply(pending, component_present[i]);
        res.push(plan);
        i = i + 1;
    }
    res
}

/// Applies the pending values of one entity to each of its components in turn,
/// `plans[i]` and `targets[i]` being the plan (see [`plan_entity_restyle`]) and
/// the component it chose for `registrations[i]`.
///
/// A failed write ends the walk of its own component only: every later
/// component is applied all the same, on the map as the earlier ones left it.
/// Returns the targets, and for each registration the actions left to do with
/// its component or the error of its failed write.
pub fn restyle_entity<V, E, A: PropertyValueTarget<V, E>>(
    registrations: &Vec<ComponentPropertiesRegistration>,
    plans: &Vec<ApplyPlan>,
    targets: Vec<A>,
    values: &mut PropertyMap<ComputedValue<V>>,
) -> (res: (Vec<A>, Vec<Result<Vec<ApplyAction>, E>>))
    requires
        registrations@.len() == targets@.len(),
        plans@.len() == targets@.len(),
        forall|i: int|
            0 <= i < plans@.len() && plans@[i] != ApplyPlan::Skip ==> (
            #[trigger] registrations@[i]).start() >= registrations@[i].end()
                || registrations@[i].end() <= old(values)@.len(),
    ensures
        res.0@.len() == targets@.len(),
        res.1@.len() == targets@.len(),
        final(values)@.len() == old(values)@.len(),
        exists|states: Seq<Seq<ComputedValue<V>>>|
            {
                &&& states.len() == targets@.len() + 1
                &&& states[0] == old(values)@
                &&& states.last() == final(values)@
                &&& forall|i: int|
                    #![trigger res.1@[i]]
                    0 <= i < targets@.len() ==> registrations@[i].spec_applied_as_planned(
                        plans@[i],
                        states[i],
                        states[i + 1],
                        targets@[i],
                        res.0@[i],
                        res.1@[i],
                    )
            },
{
    let n = targets.len();
    let ghost given = targets@;
    let ghost start = values@;
    let mut remaining = targets;
    let mut done: Vec<A> = Vec::new();
    let mut results: Vec<Result<Vec<ApplyAction>, E>> = Vec::new();
    let ghost mut states: Seq<Seq<ComputedValue<V>>> = seq![values@];
    let mut i: usize = 0;
    while i < n
        invariant
            n == given.len(),
            registrations@.len() == n,
            plans@.len() == n,
            start == old(values)@,
            forall|j: int|
                0 <= j < plans@.len() && plans@[j] != ApplyPlan::Skip ==> (
                #[trigger] registrations@[j]).start() >= registrations@[j].end()
                    || registrations@[j].end() <= start.len(),
            i <= n,
            values@.len() == start.len(),
            remaining@ == given.skip(i as int),
            done@.len() == i,
            results@.len() == i,
            states.len() == i + 1,
            states[0] == start,
            states[i as int] == values@,
            forall|j: int|
                #![trigger results@[j]]
                0 <= j < i ==> registrations@[j].spec_applied_as_planned(
                    plans@[j],
                    states[j],
                    states[j + 1],
                    given[j],
                    done@[j],
                    results@[j],
                ),
        decreases n - i,
    {
        let mut target = remaining.remove(0);
        proof {
            assert(target == given[i as int]);
            assert(remaining@ =~= given.skip(i + 1));
        }
        let outcome = registrations[i].apply_planned_values(plans[i], &mut target, values);
        proof {
            states = states.push(values@);
        }
        done.push(target);
        results.push(outcome);
        i = i + 1;
    }
    proof {
        assert(states.last() == values@);
    }
    (done, results)
}

/// Restyling some properties touches only the components they belong to: when no
/// change names a property of a mutable component, that component is not
/// borrowed, whether or not the entity has it.
pub proof fn lemma_restyle_leaves_other_components_untouched<V>(
    registration: ComponentPropertiesRegistration,
    len: nat,
    changes: Seq<(ComponentPropertyId, V)>,
    component_present: bool,
)
    requires
        registration.spec_is_mutable(),
        registration.end() <= len,
        forall|k: int|
            0 <= k < changes.len() ==> !(registration.start() <= #[trigger] changes[k].0.0
                < registration.end()),
    ensures
        registration.spec_plan_apply(spec_pending_changes(len, changes), component_present)
            == ApplyPlan::Skip,
{
    let pending = spec_pending_changes(len, changes);
    lemma_pending_changes_len(len, changes);
    if has_value_in(pending, registration.start(), registration.end()) {
        let i = choose|i: int|
            registration.start() <= i < registration.end() && 0 <= i < pending.len()
                && #[trigger] pending[i] is Value;
        lemma_pending_changes_slots(len, changes, i);
        let k = choose|k: int| 0 <= k < changes.len() && #[trigger] changes[k].0.0 == i;
        assert(!(registration.start() <= changes[k].0.0 < registration.end()));
    }
}

/// A change of one of a mutable component's properties reaches that component:
/// written in place when the entity has it, inserted from its default value when
/// it is absent and auto insertion is configured.
pub proof fn lemma_restyle_reaches_its_component<V>(
    registration: ComponentPropertiesRegistration,
    len: nat,
    changes: Seq<(ComponentPropertyId, V)>,
    k: int,
    component_present: bool,
)
    requires
        registration.spec_is_mutable(),
        registration.end() <= len,
        0 <= k < changes.len(),
        registration.start() <= changes[k].0.0 < registration.end(),
    ensures
        registration.spec_plan_apply(spec_pending_changes(len, changes), component_present)
            == if component_present {
            ApplyPlan::ApplyInPlace
        } else if registration.spec_auto_insert_remove() {
            ApplyPlan::InsertDefault
        } else {
            ApplyPlan::Skip
        },
{
    let i = changes[k].0.0 as int;
    lemma_pending_changes_len(len, changes);
    lemma_pending_changes_slots(len, changes, i);
    assert(spec_pending_changes(len, changes)[i] is Value);
}

/// A run with no changes writes nothing: the pending map holds no value, so no
/// mutable component is borrowed, no value reaches any component, and nothing
/// is inserted or announced.
pub proof fn lemma_no_changes_write_nothing<V>(
    registration: ComponentPropertiesRegistration,
    len: nat,
    component_present: bool,
)
    requires
        registration.end() <= len,
    ensures
        !has_value_in(
            spec_pending_changes(len, Seq::<(ComponentPropertyId, V)>::empty()),
            registration.start(),
            registration.end(),
        ),
        value_writes(
            spec_pending_changes(len, Seq::<(ComponentPropertyId, V)>::empty()),
            registration.start(),
            registration.end(),
        ) == Seq::<(ComponentPropertyId, V)>::empty(),
        registration.spec_is_mutable() ==> registration.spec_plan_apply(
            spec_pending_changes(len, Seq::<(ComponentPropertyId, V)>::empty()),
            component_present,
        ) == ApplyPlan::Skip,
        spec_apply_actions(
            registration.spec_plan_apply(
                spec_pending_changes(len, Seq::<(ComponentPropertyId, V)>::empty()),
                component_present,
            ),
            false,
        ) == Seq::<ApplyAction>::empty(),
{
    let pending = spec_pending_changes(len, Seq::<(ComponentPropertyId, V)>::empty());
    assert(pending =~= Seq::new(len, |i: int| ComputedValue::<V>::Unset));
    assert forall|i: int| registration.start() <= i < registration.end() implies #[trigger] pending[i] is Unset by {
        registration.lemma_range_is_natural();
    }
    assert(all_unset_in(pending, registration.start(), registration.end()));
    lemma_unset_slots_write_nothing(pending, registration.start(), registration.end());
    assert(spec_apply_actions(registration.spec_plan_apply(pending, component_present), false)
        =~= Seq::<ApplyAction>::empty());
}

} // verus!
