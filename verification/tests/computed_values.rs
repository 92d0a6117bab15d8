use flair_style::component_properties::{
    AppliedValues, ApplyAction, WriteOutcomes, ApplyPlan, ComponentPropertiesRegistration, PropertyValueTarget,
};
use flair_style::computed_values::{pending_changes, plan_entity_restyle, restyle_entity};
use flair_style::property_map::{ComponentPropertyId, ComputedValue};
use std::any::TypeId;

#[derive(Clone, Debug, Default, PartialEq)]
struct TestComponent {
    left: f32,
    right: f32,
}

#[derive(Clone, Debug, Default, PartialEq)]
struct OtherComponent {
    width: f32,
}

impl PropertyValueTarget<f32, String> for TestComponent {
    fn applied(&self) -> AppliedValues<f32> {
        unreachable!()
    }

    fn outcomes(&self) -> WriteOutcomes<String> {
        unreachable!()
    }

    fn apply_value(&mut self, id: ComponentPropertyId, value: f32) -> Result<(), String> {
        match id.0 {
            0 => self.left = value,
            1 => self.right = value,
            other => return Err(format!("no property {other}")),
        }
        Ok(())
    }
}

impl PropertyValueTarget<f32, String> for OtherComponent {
    fn applied(&self) -> AppliedValues<f32> {
        unreachable!()
    }

    fn outcomes(&self) -> WriteOutcomes<String> {
        unreachable!()
    }

    fn apply_value(&mut self, id: ComponentPropertyId, value: f32) -> Result<(), String> {
        match id.0 {
            2 => self.width = value,
            other => return Err(format!("no property {other}")),
        }
        Ok(())
    }
}

fn test_registration() -> ComponentPropertiesRegistration {
    ComponentPropertiesRegistration::new(
        "TestComponent",
        TypeId::of::<TestComponent>(),
        true,
        ComponentPropertyId(0)..ComponentPropertyId(2),
        true,
    )
}

fn other_registration() -> ComponentPropertiesRegistration {
    ComponentPropertiesRegistration::new(
        "OtherComponent",
        TypeId::of::<OtherComponent>(),
        true,
        ComponentPropertyId(2)..ComponentPropertyId(3),
        false,
    )
}

#[test]
fn test_apply_computed_properties() {
    let reg = test_registration();
    let left_property = ComponentPropertyId(0);

    let mut entity_1 = Some(TestComponent { left: 10.0, right: 20.0 });
    let mut entity_2: Option<TestComponent> = None;

    // Simulate setting left_property to 500.0 for both entities
    for slot in [&mut entity_1, &mut entity_2] {
        let (mut changes, modified) = pending_changes(2, vec![(left_property, 500.0f32)]);
        assert!(modified);
        let plan = reg.plan_apply(&changes, slot.is_some());
        match plan {
            ApplyPlan::ApplyInPlace => {
                reg.internal_apply_values(slot.as_mut().unwrap(), &mut changes).unwrap();
            }
            ApplyPlan::InsertDefault => {
                let mut component = TestComponent::default();
                let actions = reg.apply_planned_values(plan, &mut component, &mut changes).unwrap();
                if actions.contains(&ApplyAction::InsertComponent) {
                    *slot = Some(component);
                }
            }
            other => panic!("unexpected plan {other:?}"),
        }
    }

    let test_component_1 = entity_1.unwrap();
    // Left property has been set
    assert_eq!(test_component_1.left, 500.0);
    // Right property has been left as it was
    assert_eq!(test_component_1.right, 20.0);

    let test_component_2 = entity_2.unwrap();
    // Left property has been set
    assert_eq!(test_component_2.left, 500.0);
    // Right property has taken the default value
    assert_eq!(test_component_2.right, 0.0);
}

#[test]
fn test_restyling_one_component_leaves_the_others_unchanged() {
    let registrations = vec![test_registration(), other_registration()];
    let left_property = ComponentPropertyId(0);

    let mut test_component = TestComponent { left: 10.0, right: 20.0 };
    let mut other_component = OtherComponent { width: 5.0 };

    // Only `left` changes; `OtherComponent` has no property in the change.
    let (mut changes, modified) = pending_changes(3, vec![(left_property, 500.0f32)]);
    assert!(modified);
    let plans = plan_entity_restyle(&registrations, &changes, &vec![true, true]);
    assert_eq!(plans, vec![ApplyPlan::ApplyInPlace, ApplyPlan::Skip]);

    let mut test_changed = false;
    let mut other_changed = false;
    if plans[0] == ApplyPlan::ApplyInPlace {
        test_changed = true;
        registrations[0].internal_apply_values(&mut test_component, &mut changes).unwrap();
    }
    if plans[1] == ApplyPlan::ApplyInPlace {
        other_changed = true;
        registrations[1].internal_apply_values(&mut other_component, &mut changes).unwrap();
    }
    assert!(test_changed, "the restyled component is flagged changed");
    assert!(
        !other_changed,
        "a component with no restyled property must not be flagged changed"
    );
    assert_eq!(test_component, TestComponent { left: 500.0, right: 20.0 });
    assert_eq!(other_component, OtherComponent { width: 5.0 });
}

#[test]
fn pending_changes_later_change_wins() {
    let (map, modified) = pending_changes(
        3,
        vec![
            (ComponentPropertyId(1), 1.0f32),
            (ComponentPropertyId(2), 2.0),
            (ComponentPropertyId(1), 3.0),
        ],
    );
    assert!(modified);
    assert_eq!(map.len(), 3);
    assert_eq!(map.get(ComponentPropertyId(0)), &ComputedValue::Unset);
    assert_eq!(map.get(ComponentPropertyId(1)), &ComputedValue::Value(3.0));
    assert_eq!(map.get(ComponentPropertyId(2)), &ComputedValue::Value(2.0));
}

#[test]
fn pending_changes_without_changes_is_unmodified() {
    let (map, modified) = pending_changes::<f32>(2, vec![]);
    assert!(!modified);
    assert!(map.get(ComponentPropertyId(0)).is_none());
    assert!(map.get(ComponentPropertyId(1)).is_none());
}

#[test]
fn a_run_without_changes_writes_nothing() {
    let registrations = vec![test_registration(), other_registration()];
    let (mut changes, modified) = pending_changes::<f32>(3, vec![]);
    assert!(!modified);
    let plans = plan_entity_restyle(&registrations, &changes, &vec![true, false]);
    assert_eq!(plans, vec![ApplyPlan::Skip, ApplyPlan::Skip]);
    // even a component that is cloned and inserted again receives nothing
    let mut writes: Vec<(ComponentPropertyId, f32)> = Vec::new();
    let actions = registrations[0]
        .apply_planned_values::<f32, String, _>(ApplyPlan::CloneAndReinsert, &mut writes, &mut changes)
        .unwrap();
    assert!(writes.is_empty());
    assert!(actions.is_empty());
}

#[test]
fn restyle_of_absent_component_without_auto_insert_is_skipped() {
    let registrations = vec![test_registration(), other_registration()];
    let (changes, _) = pending_changes(3, vec![(ComponentPropertyId(2), 9.0f32)]);
    let plans = plan_entity_restyle(&registrations, &changes, &vec![false, false]);
    // TestComponent has no change; OtherComponent has one but is absent and not auto-inserted
    assert_eq!(plans, vec![ApplyPlan::Skip, ApplyPlan::Skip]);
    let plans = plan_entity_restyle(&registrations, &changes, &vec![false, true]);
    assert_eq!(plans, vec![ApplyPlan::Skip, ApplyPlan::ApplyInPlace]);
}

/// Records the writes it accepts, and rejects every write of one property.
struct Recorder {
    reject: usize,
    writes: Vec<(ComponentPropertyId, f32)>,
}

impl PropertyValueTarget<f32, String> for Recorder {
    fn applied(&self) -> AppliedValues<f32> {
        unreachable!()
    }

    fn outcomes(&self) -> WriteOutcomes<String> {
        unreachable!()
    }

    fn apply_value(&mut self, id: ComponentPropertyId, value: f32) -> Result<(), String> {
        if id.0 == self.reject {
            return Err(format!("cannot write property {}", id.0));
        }
        self.writes.push((id, value));
        Ok(())
    }
}

#[test]
fn restyle_goes_on_after_a_failed_write() {
    let registrations = vec![test_registration(), other_registration()];
    let (mut changes, _) = pending_changes(
        3,
        vec![
            (ComponentPropertyId(0), 1.0f32),
            (ComponentPropertyId(1), 2.0),
            (ComponentPropertyId(2), 3.0),
        ],
    );
    let plans = plan_entity_restyle(&registrations, &changes, &vec![true, true]);
    assert_eq!(plans, vec![ApplyPlan::ApplyInPlace, ApplyPlan::ApplyInPlace]);
    let targets = vec![
        Recorder { reject: 0, writes: Vec::new() },
        Recorder { reject: usize::MAX, writes: Vec::new() },
    ];
    let (targets, results) = restyle_entity(&registrations, &plans, targets, &mut changes);
    // the first component stops at its failed write and reports it
    assert_eq!(results[0], Err("cannot write property 0".to_owned()));
    assert!(targets[0].writes.is_empty());
    assert!(changes.get(ComponentPropertyId(0)).is_none());
    assert_eq!(changes.get(ComponentPropertyId(1)), &ComputedValue::Value(2.0));
    // the second is applied all the same
    assert_eq!(results[1], Ok(vec![]));
    assert_eq!(targets[1].writes, vec![(ComponentPropertyId(2), 3.0)]);
    assert!(changes.get(ComponentPropertyId(2)).is_none());
}

#[test]
fn restyle_of_absent_component_inserts_then_announces() {
    let registrations = vec![test_registration()];
    let (mut changes, _) = pending_changes(2, vec![(ComponentPropertyId(1), 7.0f32)]);
    let plans = plan_entity_restyle(&registrations, &changes, &vec![false]);
    assert_eq!(plans, vec![ApplyPlan::InsertDefault]);
    let targets = vec![Recorder { reject: usize::MAX, writes: Vec::new() }];
    let (targets, results) = restyle_entity(&registrations, &plans, targets, &mut changes);
    assert_eq!(
        results[0],
        Ok(vec![ApplyAction::InsertComponent, ApplyAction::EmitAutoInserted])
    );
    assert_eq!(targets[0].writes, vec![(ComponentPropertyId(1), 7.0)]);
}
