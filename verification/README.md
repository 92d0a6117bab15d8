# flair_style

The bookkeeping behind CSS-like styling of UI entities, written in Verus.

- `src/property_map.rs`: property ids, computed values and dense property maps.
- `src/component_properties.rs`: the registration of a component's properties and
  the decisions that bring computed values to the component (what is borrowed,
  cloned, inserted from a default, announced or removed, and in which order),
  the writing of the values into their target in id order, property paths and
  the extraction trait.
- `src/computed_values.rs`: gathering the changes of one entity into a property
  map, planning the restyle of each registered component, and applying the
  values to each component in turn, a failed write stopping only its own
  component.
- `src/flags.rs`: flag sets and their atomic holders.
- `src/class_list.rs`, `src/attributes.rs`, `src/style_data.rs`: class lists,
  attribute lists, the data selectors match against, pseudo-elements.
- `src/ui_properties.rs`: the UI and text components, their property paths, the
  inherited and the automatically inserted ones, and the CSS names bound to
  their fields.
- `src/var_tokens.rs`: parsing the tokens a `var()` reference stands for into a
  value of one property, with cssparser, and the custom properties of an entity.
- `app/`: bevy glue: components seen through reflection, applying values to
  entities seen through `EntityWorldMut`, `EntityMut` or `EntityRef` (the last
  two through a command queue), automatic removal, the component hooks.
