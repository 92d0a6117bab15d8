use flair_style::component_properties::{
    apply_actions, AppliedValues, ApplyAction, WriteOutcomes, ApplyPlan, ComponentPropertiesRegistration,
    ExtractComponentProperties, PropertyPath, PropertyValueTarget,
};
use flair_style::property_map::{ComponentPropertyId, ComputedValue, PropertyMap};
use std::any::TypeId;

#[derive(Clone, Debug, PartialEq)]
enum TestValue {
    Float(f32),
    Text(String),
    Int(i32),
}

#[derive(Clone, Debug, Default, PartialEq)]
struct StructComponent {
    x: f32,
    y: f32,
}

#[derive(Clone, Debug, Default, PartialEq)]
struct ImmutableComponent {
    a: f32,
}

#[derive(Clone, Debug, Default, PartialEq)]
struct TupleComponent(f32, String);

#[derive(Clone, Debug, Default, PartialEq)]
struct OpaqueComponent {
    some_value: i32,
}

/// A property writer for a component whose first property id is `start`.
struct Target<'a, C> {
    start: usize,
    component: &'a mut C,
}

impl PropertyValueTarget<TestValue, String> for Target<'_, StructComponent> {
    fn applied(&self) -> AppliedValues<TestValue> {
        unreachable!()
    }

    fn outcomes(&self) -> WriteOutcomes<String> {
        unreachable!()
    }

    fn apply_value(&mut self, id: ComponentPropertyId, value: TestValue) -> Result<(), String> {
        match (id.0 - self.start, value) {
            (0, TestValue::Float(v)) => self.component.x = v,
            (1, TestValue::Float(v)) => self.component.y = v,
            (_, v) => return Err(format!("cannot apply {v:?}")),
        }
        Ok(())
    }
}

impl PropertyValueTarget<TestValue, String> for Target<'_, ImmutableComponent> {
    fn applied(&self) -> AppliedValues<TestValue> {
        unreachable!()
    }

    fn outcomes(&self) -> WriteOutcomes<String> {
        unreachable!()
    }

    fn apply_value(&mut self, id: ComponentPropertyId, value: TestValue) -> Result<(), String> {
        match (id.0 - self.start, value) {
            (0, TestValue::Float(v)) => self.component.a = v,
            (_, v) => return Err(format!("cannot apply {v:?}")),
        }
        Ok(())
    }
}

impl PropertyValueTarget<TestValue, String> for Target<'_, TupleComponent> {
    fn applied(&self) -> AppliedValues<TestValue> {
        unreachable!()
    }

    fn outcomes(&self) -> WriteOutcomes<String> {
        unreachable!()
    }

    fn apply_value(&mut self, id: ComponentPropertyId, value: TestValue) -> Result<(), String> {
        match (id.0 - self.start, value) {
            (0, TestValue::Float(v)) => self.component.0 = v,
            (1, TestValue::Text(v)) => self.component.1 = v,
            (_, v) => return Err(format!("cannot apply {v:?}")),
        }
        Ok(())
    }
}

impl PropertyValueTarget<TestValue, String> for Target<'_, OpaqueComponent> {
    fn applied(&self) -> AppliedValues<TestValue> {
        unreachable!()
    }

    fn outcomes(&self) -> WriteOutcomes<String> {
        unreachable!()
    }

    fn apply_value(&mut self, id: ComponentPropertyId, value: TestValue) -> Result<(), String> {
        match (id.0 - self.start, value) {
            (0, TestValue::Int(v)) => self.component.some_value = v,
            (_, v) => return Err(format!("cannot apply {v:?}")),
        }
        Ok(())
    }
}

fn registration<C: 'static>(
    path: &'static str,
    is_mutable: bool,
    start: usize,
    end: usize,
    auto_insert_remove: bool,
) -> ComponentPropertiesRegistration {
    ComponentPropertiesRegistration::new(
        path,
        TypeId::of::<C>(),
        is_mutable,
        ComponentPropertyId(start)..ComponentPropertyId(end),
        auto_insert_remove,
    )
}

/// Applies the values of one registration to an entity slot holding an optional
/// component, the way an entity seen mutably is handled: the plan decides
/// what is borrowed, the actions what is inserted and announced.
fn apply_to_slot<C>(
    registration: &ComponentPropertiesRegistration,
    slot: &mut Option<C>,
    values: &mut PropertyMap<ComputedValue<TestValue>>,
    plan: ApplyPlan,
    inserted_events: &mut Vec<TypeId>,
    borrowed_mutably: &mut bool,
) -> Result<(), String>
where
    C: Clone + Default + 'static,
    for<'a> Target<'a, C>: PropertyValueTarget<TestValue, String>,
{
    let start = registration.properties_range().start.0;
    let mut component = match plan {
        ApplyPlan::Skip => return Ok(()),
        ApplyPlan::ApplyInPlace => {
            *borrowed_mutably = true;
            let component = slot.as_mut().unwrap();
            registration.apply_planned_values(plan, &mut Target { start, component }, values)?;
            return Ok(());
        }
        ApplyPlan::CloneAndReinsert => slot.clone().unwrap(),
        ApplyPlan::InsertDefault => C::default(),
    };
    let actions = registration
        .apply_planned_values(plan, &mut Target { start, component: &mut component }, values)?;
    for action in actions {
        match action {
            ApplyAction::InsertComponent => *slot = Some(component.clone()),
            ApplyAction::EmitAutoInserted => inserted_events.push(TypeId::of::<C>()),
        }
    }
    Ok(())
}

struct Entity {
    struct_component: Option<StructComponent>,
    immutable_component: Option<ImmutableComponent>,
    tuple_component: Option<TupleComponent>,
    opaque_component: Option<OpaqueComponent>,
}

struct Registry {
    struct_reg: ComponentPropertiesRegistration,
    immutable_reg: ComponentPropertiesRegistration,
    tuple_reg: ComponentPropertiesRegistration,
    opaque_reg: ComponentPropertiesRegistration,
}

fn registry() -> Registry {
    Registry {
        struct_reg: registration::<StructComponent>("StructComponent", true, 0, 2, true),
        immutable_reg: registration::<ImmutableComponent>("ImmutableComponent", false, 2, 3, true),
        tuple_reg: registration::<TupleComponent>("TupleComponent", true, 3, 5, false),
        opaque_reg: registration::<OpaqueComponent>("OpaqueComponent", true, 5, 6, false),
    }
}

fn apply_all_world_mut(
    registry: &Registry,
    entity: &mut Entity,
    values: &mut PropertyMap<ComputedValue<TestValue>>,
    events: &mut Vec<TypeId>,
) {
    let mut borrowed = false;
    let plan = registry.struct_reg.plan_apply(values, entity.struct_component.is_some());
    apply_to_slot(&registry.struct_reg, &mut entity.struct_component, values, plan, events, &mut borrowed)
        .expect("Error on apply");
    let plan = registry.immutable_reg.plan_apply(values, entity.immutable_component.is_some());
    apply_to_slot(&registry.immutable_reg, &mut entity.immutable_component, values, plan, events, &mut borrowed)
        .expect("Error on apply");
    let plan = registry.tuple_reg.plan_apply(values, entity.tuple_component.is_some());
    apply_to_slot(&registry.tuple_reg, &mut entity.tuple_component, values, plan, events, &mut borrowed)
        .expect("Error on apply");
    let plan = registry.opaque_reg.plan_apply(values, entity.opaque_component.is_some());
    apply_to_slot(&registry.opaque_reg, &mut entity.opaque_component, values, plan, events, &mut borrowed)
        .expect("Error on apply");
}

fn value(v: TestValue) -> ComputedValue<TestValue> {
    ComputedValue::Value(v)
}

fn is_unset(values: &PropertyMap<ComputedValue<TestValue>>, id: usize) -> bool {
    values.get(ComponentPropertyId(id)).is_none()
}

#[test]
fn component_apply_values_world_mut() {
    let registry = registry();
    let x_id = 0;
    let a_id = 2;
    let tuple_idx_1 = 4;
    let opaque_component_id = 5;

    let mut properties: PropertyMap<ComputedValue<TestValue>> = PropertyMap::new_empty(6);
    let mut events = Vec::new();
    let mut entity = Entity {
        struct_component: None,
        immutable_component: None,
        tuple_component: None,
        opaque_component: None,
    };

    apply_all_world_mut(&registry, &mut entity, &mut properties, &mut events);

    // StructComponent is not added because there are no properties set
    assert!(entity.struct_component.is_none());

    properties.set(ComponentPropertyId(x_id), value(TestValue::Float(10.0)));
    properties.set(ComponentPropertyId(a_id), value(TestValue::Float(-100.0)));
    properties.set(ComponentPropertyId(tuple_idx_1), value(TestValue::Text("AA".to_owned())));
    properties.set(ComponentPropertyId(opaque_component_id), value(TestValue::Int(100)));

    apply_all_world_mut(&registry, &mut entity, &mut properties, &mut events);

    assert!(is_unset(&properties, x_id));
    assert_eq!(entity.struct_component.as_ref().unwrap().x, 10.0);

    assert!(is_unset(&properties, a_id));
    assert_eq!(entity.immutable_component.as_ref().unwrap().a, -100.0);

    // TupleComponent and OpaqueComponent are not inserted automatically, so the properties stay
    assert!(!is_unset(&properties, tuple_idx_1));
    assert!(!is_unset(&properties, opaque_component_id));

    assert_eq!(
        events,
        vec![TypeId::of::<StructComponent>(), TypeId::of::<ImmutableComponent>()]
    );

    entity.tuple_component = Some(TupleComponent::default());
    entity.opaque_component = Some(OpaqueComponent::default());

    // Reapply properties, now TupleComponent and OpaqueComponent are present
    apply_all_world_mut(&registry, &mut entity, &mut properties, &mut events);

    assert!(is_unset(&properties, tuple_idx_1));
    assert!(is_unset(&properties, opaque_component_id));
    assert_eq!(entity.tuple_component.as_ref().unwrap().1, "AA");
    assert_eq!(
        entity.opaque_component.as_ref().unwrap(),
        &OpaqueComponent { some_value: 100 }
    );
}

#[test]
fn component_apply_values_mut() {
    let reg = registration::<StructComponent>("StructComponent", true, 0, 2, true);
    assert!(reg.auto_insert_remove());
    let x_id = 0;
    let mut properties: PropertyMap<ComputedValue<TestValue>> = PropertyMap::new_empty(2);
    properties.set(ComponentPropertyId(x_id), value(TestValue::Float(10.0)));

    let mut slot: Option<StructComponent> = None;
    let mut events = Vec::new();
    let mut borrowed = false;
    let plan = reg.plan_apply(&properties, slot.is_some());
    assert_eq!(plan, ApplyPlan::InsertDefault);
    apply_to_slot(&reg, &mut slot, &mut properties, plan, &mut events, &mut borrowed)
        .expect("Error on apply");

    assert!(is_unset(&properties, x_id));
    assert_eq!(slot.unwrap().x, 10.0);
    assert_eq!(events, vec![TypeId::of::<StructComponent>()]);
}

#[test]
fn component_apply_values_ref() {
    let reg = registration::<StructComponent>("StructComponent", true, 0, 2, true);
    let x_id = 0;
    let mut properties: PropertyMap<ComputedValue<TestValue>> = PropertyMap::new_empty(2);
    properties.set(ComponentPropertyId(x_id), value(TestValue::Float(200.0)));
    let mut events = Vec::new();
    let mut borrowed = false;

    // Component already present on the entity -> updated through a clone that is inserted again
    let mut slot = Some(StructComponent { x: 1.0, y: 2.0 });
    let plan = reg.plan_apply_ref(slot.is_some());
    assert_eq!(plan, ApplyPlan::CloneAndReinsert);
    apply_to_slot(&reg, &mut slot, &mut properties, plan, &mut events, &mut borrowed)
        .expect("Error on apply");

    // property should be consumed
    assert!(is_unset(&properties, x_id));
    assert_eq!(slot, Some(StructComponent { x: 200.0, y: 2.0 }));
    assert!(events.is_empty());
    assert!(!borrowed);

    // Component not present -> inserted from its default value
    let mut slot2: Option<StructComponent> = None;
    properties.set(ComponentPropertyId(x_id), value(TestValue::Float(-20.0)));
    let plan = reg.plan_apply_ref(slot2.is_some());
    apply_to_slot(&reg, &mut slot2, &mut properties, plan, &mut events, &mut borrowed)
        .expect("Error on apply");

    // property consumed again
    assert!(is_unset(&properties, x_id));
    assert_eq!(slot2, Some(StructComponent { x: -20.0, y: 0.0 }));
    assert_eq!(events, vec![TypeId::of::<StructComponent>()]);
}

#[test]
fn component_auto_remove() {
    let struct_reg = registration::<StructComponent>("StructComponent", true, 0, 2, true);
    let tuple_reg = registration::<TupleComponent>("TupleComponent", true, 2, 4, false);
    let properties: PropertyMap<ComputedValue<TestValue>> = PropertyMap::new_empty(4);

    let mut struct_slot = Some(StructComponent { x: 1.0, y: 2.0 });
    let mut tuple_slot = Some(TupleComponent::default());
    if struct_reg.should_auto_remove(struct_slot.is_some(), &properties) {
        struct_slot = None;
    }
    if tuple_reg.should_auto_remove(tuple_slot.is_some(), &properties) {
        tuple_slot = None;
    }

    assert!(struct_slot.is_none());
    // TupleComponent is not configured to be inserted or removed automatically
    assert!(tuple_slot.is_some());
}

#[test]
fn component_auto_remove_deferred() {
    let struct_reg = registration::<StructComponent>("StructComponent", true, 0, 2, true);
    let properties: PropertyMap<ComputedValue<TestValue>> = PropertyMap::new_empty(2);

    let mut queued_removals = Vec::new();
    if struct_reg.should_auto_remove(true, &properties) {
        queued_removals.push(struct_reg.component_type_id());
    }
    assert_eq!(queued_removals, vec![TypeId::of::<StructComponent>()]);
}

#[test]
fn auto_remove_needs_every_property_unset() {
    let reg = registration::<StructComponent>("StructComponent", true, 0, 2, true);
    let mut properties: PropertyMap<ComputedValue<TestValue>> = PropertyMap::new_empty(3);
    properties.set(ComponentPropertyId(2), value(TestValue::Float(1.0)));
    // a value outside the component's range does not keep it
    assert!(reg.should_auto_remove(true, &properties));
    properties.set(ComponentPropertyId(1), value(TestValue::Float(1.0)));
    assert!(!reg.should_auto_remove(true, &properties));
    // an absent component is never removed
    assert!(!reg.should_auto_remove(false, &PropertyMap::<ComputedValue<TestValue>>::new_empty(3)));
}

#[test]
fn registration_accessors() {
    let reg = registration::<StructComponent>("my::StructComponent", false, 3, 6, true);
    assert_eq!(reg.component_type_path(), "my::StructComponent");
    assert_eq!(reg.component_type_id(), TypeId::of::<StructComponent>());
    assert!(!reg.is_mutable());
    assert!(reg.auto_insert_remove());
    let range = reg.properties_range();
    assert_eq!(range.start, ComponentPropertyId(3));
    assert_eq!(range.end, ComponentPropertyId(6));
    assert_eq!(
        reg.iter_properties(),
        vec![ComponentPropertyId(3), ComponentPropertyId(4), ComponentPropertyId(5)]
    );
    let empty = registration::<StructComponent>("Empty", true, 4, 4, false);
    assert!(empty.iter_properties().is_empty());
}

#[test]
fn has_values_for_looks_at_own_range_only() {
    let reg = registration::<StructComponent>("StructComponent", true, 1, 3, true);
    let mut properties: PropertyMap<ComputedValue<TestValue>> = PropertyMap::new_empty(4);
    assert!(!reg.has_values_for(&properties));
    properties.set(ComponentPropertyId(0), value(TestValue::Float(1.0)));
    properties.set(ComponentPropertyId(3), value(TestValue::Float(1.0)));
    assert!(!reg.has_values_for(&properties));
    properties.set(ComponentPropertyId(2), value(TestValue::Float(1.0)));
    assert!(reg.has_values_for(&properties));
}

#[test]
fn mutable_component_without_values_is_not_borrowed() {
    let reg = registration::<StructComponent>("StructComponent", true, 0, 2, true);
    let properties: PropertyMap<ComputedValue<TestValue>> = PropertyMap::new_empty(2);
    assert_eq!(reg.plan_apply(&properties, true), ApplyPlan::Skip);
    assert_eq!(reg.plan_apply(&properties, false), ApplyPlan::Skip);
    // an immutable component is still cloned: nothing is inserted back without a value
    let imm = registration::<StructComponent>("StructComponent", false, 0, 2, false);
    assert_eq!(imm.plan_apply(&properties, true), ApplyPlan::CloneAndReinsert);
    assert!(apply_actions(ApplyPlan::CloneAndReinsert, false).is_empty());
    assert_eq!(imm.plan_apply(&properties, false), ApplyPlan::Skip);
}

#[test]
fn apply_actions_table() {
    assert!(apply_actions(ApplyPlan::Skip, true).is_empty());
    assert!(apply_actions(ApplyPlan::ApplyInPlace, true).is_empty());
    assert_eq!(
        apply_actions(ApplyPlan::CloneAndReinsert, true),
        vec![ApplyAction::InsertComponent]
    );
    assert_eq!(
        apply_actions(ApplyPlan::InsertDefault, true),
        vec![ApplyAction::InsertComponent, ApplyAction::EmitAutoInserted]
    );
    assert!(apply_actions(ApplyPlan::InsertDefault, false).is_empty());
}

#[test]
fn writes_reach_the_target_in_id_order() {
    let reg = registration::<StructComponent>("StructComponent", true, 1, 4, true);
    let mut properties: PropertyMap<ComputedValue<TestValue>> = PropertyMap::new_empty(5);
    properties.set(ComponentPropertyId(0), value(TestValue::Float(0.5)));
    properties.set(ComponentPropertyId(3), value(TestValue::Float(3.0)));
    properties.set(ComponentPropertyId(1), value(TestValue::Text("one".to_owned())));
    properties.set(ComponentPropertyId(4), value(TestValue::Float(4.0)));
    let mut writes: Vec<(ComponentPropertyId, TestValue)> = Vec::new();
    let actions = reg
        .apply_planned_values::<TestValue, String, _>(ApplyPlan::InsertDefault, &mut writes, &mut properties)
        .unwrap();
    assert_eq!(
        writes,
        vec![
            (ComponentPropertyId(1), TestValue::Text("one".to_owned())),
            (ComponentPropertyId(3), TestValue::Float(3.0)),
        ]
    );
    assert_eq!(actions, vec![ApplyAction::InsertComponent, ApplyAction::EmitAutoInserted]);
    assert!(is_unset(&properties, 1));
    assert!(is_unset(&properties, 3));
    assert_eq!(properties.get(ComponentPropertyId(0)), &value(TestValue::Float(0.5)));
    assert_eq!(properties.get(ComponentPropertyId(4)), &value(TestValue::Float(4.0)));

    // nothing is taken or written when the plan is to skip
    properties.set(ComponentPropertyId(2), value(TestValue::Float(2.0)));
    let mut none: Vec<(ComponentPropertyId, TestValue)> = Vec::new();
    let actions = reg
        .apply_planned_values::<TestValue, String, _>(ApplyPlan::Skip, &mut none, &mut properties)
        .unwrap();
    assert!(actions.is_empty());
    assert!(none.is_empty());
    assert_eq!(properties.get(ComponentPropertyId(2)), &value(TestValue::Float(2.0)));
}

#[test]
fn apply_stops_at_first_error() {
    let reg = registration::<StructComponent>("StructComponent", true, 0, 2, true);
    let mut properties: PropertyMap<ComputedValue<TestValue>> = PropertyMap::new_empty(3);
    properties.set(ComponentPropertyId(0), value(TestValue::Int(1)));
    properties.set(ComponentPropertyId(1), value(TestValue::Float(5.0)));
    properties.set(ComponentPropertyId(2), value(TestValue::Float(7.0)));
    let mut component = StructComponent::default();
    let res = reg.internal_apply_values(&mut Target { start: 0, component: &mut component }, &mut properties);
    assert_eq!(res, Err("cannot apply Int(1)".to_owned()));
    // the failing slot was taken, the later one of the component left, the one outside untouched
    assert!(is_unset(&properties, 0));
    assert_eq!(properties.get(ComponentPropertyId(1)), &value(TestValue::Float(5.0)));
    assert_eq!(properties.get(ComponentPropertyId(2)), &value(TestValue::Float(7.0)));
    assert_eq!(component, StructComponent::default());
    // a failed write inserts and announces nothing
    let mut properties: PropertyMap<ComputedValue<TestValue>> = PropertyMap::new_empty(2);
    properties.set(ComponentPropertyId(1), value(TestValue::Text("x".to_owned())));
    let mut fresh = StructComponent::default();
    let res = reg.apply_planned_values(
        ApplyPlan::InsertDefault,
        &mut Target { start: 0, component: &mut fresh },
        &mut properties,
    );
    assert_eq!(res, Err("cannot apply Text(\"x\")".to_owned()));
}

#[test]
fn apply_consumes_values_and_reports_whether_any() {
    let reg = registration::<StructComponent>("StructComponent", true, 0, 2, true);
    let mut properties: PropertyMap<ComputedValue<TestValue>> = PropertyMap::new_empty(3);
    let mut component = StructComponent::default();
    let any = reg
        .internal_apply_values(&mut Target { start: 0, component: &mut component }, &mut properties)
        .unwrap();
    assert!(!any);
    properties.set(ComponentPropertyId(1), value(TestValue::Float(3.0)));
    properties.set(ComponentPropertyId(2), value(TestValue::Float(4.0)));
    let any = reg
        .internal_apply_values(&mut Target { start: 0, component: &mut component }, &mut properties)
        .unwrap();
    assert!(any);
    assert_eq!(component, StructComponent { x: 0.0, y: 3.0 });
    assert!(is_unset(&properties, 1));
    assert_eq!(properties.get(ComponentPropertyId(2)), &value(TestValue::Float(4.0)));
    // applying again borrows nothing
    assert_eq!(reg.plan_apply(&properties, true), ApplyPlan::Skip);
}

struct MyStruct;

impl ExtractComponentProperties for MyStruct {
    fn extract_properties(parent_path: &PropertyPath, define_property: &mut Vec<(PropertyPath, TypeId)>) {
        define_property.push((parent_path.child("value"), TypeId::of::<f32>()));
    }
}

#[test]
fn extract_root_properties_uses_the_empty_path() {
    let mut defined = Vec::new();
    MyStruct::extract_root_properties(&mut defined);
    assert_eq!(defined.len(), 1);
    assert_eq!(defined[0].0.as_str(), ".value");
    assert_eq!(defined[0].1, TypeId::of::<f32>());
    let nested = PropertyPath::empty().child("margin").child("left");
    assert_eq!(nested.as_str(), ".margin.left");
}

#[test]
fn property_map_take_and_set() {
    let mut map: PropertyMap<ComputedValue<i32>> = PropertyMap::new_empty(3);
    assert_eq!(map.len(), 3);
    map.set(ComponentPropertyId(1), ComputedValue::Value(7));
    assert!(map.get(ComponentPropertyId(1)).is_value());
    assert_eq!(map.take(ComponentPropertyId(1)), ComputedValue::Value(7));
    assert!(map.get(ComponentPropertyId(1)).is_none());
    assert_eq!(map.take(ComponentPropertyId(0)), ComputedValue::Unset);
}

#[test]
fn has_values_for_stops_at_the_first_value() {
    // The map is shorter than the component's range, but a value comes first.
    let reg = registration::<StructComponent>("StructComponent", true, 0, 5, true);
    let mut properties: PropertyMap<ComputedValue<TestValue>> = PropertyMap::new_empty(2);
    properties.set(ComponentPropertyId(1), value(TestValue::Float(1.0)));
    assert!(reg.has_values_for(&properties));
    assert_eq!(reg.plan_apply(&properties, true), ApplyPlan::ApplyInPlace);
}
