//! Style bookkeeping for CSS-like styling of UI entities: property maps of
//! computed values, the per-component registration that decides how those
//! values reach a component, class and attribute lists, style flags and the
//! table that binds CSS property names to component fields.

pub mod property_map;
pub mod component_properties;
pub mod computed_values;
pub mod flags;
pub mod class_list;
pub mod attributes;
pub mod style_data;
pub mod ui_properties;
pub mod var_tokens;
