use flair_style::flags::{
    contains, from_bits_truncate, intersects, union, AtomicFlags, DependsOnMediaFeaturesFlags,
    Flags, RecalculateOnChangeFlags, StyleFlags,
};
use flair_style::ui_properties::{
    auto_insert_remove, css_property_bindings, find_css_property, inherited_components,
    property_paths, registered_components, UiComponent,
};
use std::collections::HashSet;

#[test]
fn flags_set_operations() {
    let siblings = RecalculateOnChangeFlags::recalculate_siblings();
    let ancestors = RecalculateOnChangeFlags::recalculate_ancestors();
    let both = union(siblings, ancestors);
    assert_eq!(both.bits(), 0b101);
    assert!(contains(both, siblings));
    assert!(contains(both, ancestors));
    assert!(!contains(both, RecalculateOnChangeFlags::recalculate_descendants()));
    assert!(intersects(both, siblings));
    assert!(!intersects(siblings, ancestors));
    assert!(contains(siblings, RecalculateOnChangeFlags::empty()));
    let truncated: RecalculateOnChangeFlags = from_bits_truncate(0b11111);
    assert_eq!(truncated.bits(), 0b111);
    let media: DependsOnMediaFeaturesFlags = from_bits_truncate(0b110);
    assert_eq!(media, DependsOnMediaFeaturesFlags::depends_on_window());
    assert_eq!(DependsOnMediaFeaturesFlags::depends_on_compute_target_info().bits(), 0b01);
}

#[test]
fn atomic_flags_insert_and_read() {
    let flags: AtomicFlags<RecalculateOnChangeFlags> = AtomicFlags::new();
    assert_eq!(flags.load(), RecalculateOnChangeFlags::empty());
    assert!(!flags.intersects(RecalculateOnChangeFlags::recalculate_descendants()));
    flags.insert(RecalculateOnChangeFlags::recalculate_descendants());
    flags.insert(RecalculateOnChangeFlags::recalculate_siblings());
    assert!(flags.contains(RecalculateOnChangeFlags::recalculate_descendants()));
    assert!(flags.intersects(RecalculateOnChangeFlags::recalculate_siblings()));
    assert!(!flags.contains(RecalculateOnChangeFlags::recalculate_ancestors()));
    assert_eq!(flags.load().bits(), 0b011);
    // bits that are no defined flag are never read back
    flags.insert(RecalculateOnChangeFlags::from_bits_retain(0b1000));
    assert_eq!(flags.load().bits(), 0b011);
    assert!(!flags.contains(RecalculateOnChangeFlags::from_bits_retain(0b1000)));
}

#[test]
fn style_flags_reset_clears_everything() {
    let mut flags = StyleFlags::new();
    flags.recalculate_on_change_flags.insert(RecalculateOnChangeFlags::recalculate_siblings());
    flags.depends_on_media_flags.insert(DependsOnMediaFeaturesFlags::depends_on_window());
    flags.reset();
    assert_eq!(flags.recalculate_on_change_flags.load(), RecalculateOnChangeFlags::empty());
    assert_eq!(flags.depends_on_media_flags.load(), DependsOnMediaFeaturesFlags::empty());
}

#[test]
fn test_ui_properties_plugin() {
    let bindings = css_property_bindings();
    let display = find_css_property(&bindings, "display").unwrap();
    assert_eq!(display.component, UiComponent::Node);
    assert_eq!(display.property_path, ".display");
    let margin_left = find_css_property(&bindings, "margin-left").unwrap();
    assert_eq!(margin_left.component, UiComponent::Node);
    assert_eq!(margin_left.property_path, ".margin.left");
    let background_color = find_css_property(&bindings, "background-color").unwrap();
    assert_eq!(background_color.component, UiComponent::BackgroundColor);
    assert_eq!(background_color.property_path, ".0");
    assert!(find_css_property(&bindings, "not-a-property").is_none());
}

#[test]
fn css_bindings_are_unique_and_registered() {
    let bindings = css_property_bindings();
    let registered = registered_components();
    let mut names = HashSet::new();
    for binding in &bindings {
        assert!(names.insert(binding.css_name), "duplicate {}", binding.css_name);
        assert!(registered.contains(&binding.component));
    }
    assert_eq!(find_css_property(&bindings, "visibility").unwrap().property_path, "");
    assert_eq!(
        find_css_property(&bindings, "-bevy-image-box").unwrap().component,
        UiComponent::ImageNode
    );
}

#[test]
fn inherited_and_auto_inserted_components() {
    let registered = registered_components();
    assert_eq!(registered.first(), Some(&UiComponent::Visibility));
    assert_eq!(registered.last(), Some(&UiComponent::TextDecoration));
    let inherited = inherited_components();
    assert!(inherited.contains(&UiComponent::TextColor));
    assert!(inherited.contains(&UiComponent::TextDecoration));
    assert!(!inherited.contains(&UiComponent::Node));
    for component in &inherited {
        assert!(registered.contains(component));
    }
    assert!(auto_insert_remove(UiComponent::Outline));
    assert!(auto_insert_remove(UiComponent::ImageNode));
    // `background-color: red` inserts `BackgroundColor`, and so for the other
    // components the docs name
    assert!(auto_insert_remove(UiComponent::BackgroundColor));
    assert!(auto_insert_remove(UiComponent::BorderColor));
    assert!(auto_insert_remove(UiComponent::ZIndex));
    assert!(auto_insert_remove(UiComponent::UiTransform));
    assert!(!auto_insert_remove(UiComponent::Node));
    assert!(!auto_insert_remove(UiComponent::TextColor));
}

#[test]
fn component_property_paths() {
    let node = property_paths(UiComponent::Node);
    assert_eq!(&node[..5], &[".display", ".box_sizing", ".position_type", ".overflow.x", ".overflow.y"]);
    assert!(node.contains(&".margin.left"));
    assert!(node.contains(&".border_radius.bottom_left"));
    assert_eq!(property_paths(UiComponent::Visibility), vec![""]);
    assert_eq!(property_paths(UiComponent::TextColor), vec![".0"]);
    assert_eq!(property_paths(UiComponent::TextLayout), vec![".justify", ".linebreak"]);
    for binding in css_property_bindings() {
        assert!(property_paths(binding.component).contains(&binding.property_path));
    }
}
