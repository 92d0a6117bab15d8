use flair_style::attributes::AttributeList;
use flair_style::class_list::ClassList;
use flair_style::style_data::{
    pseudo_element_child_components, pseudo_element_children, pseudo_element_host,
    PseudoChildComponent, PseudoElement, PseudoElementHost, StyleData, Styled, TypeName,
};
use std::str::FromStr;

#[test]
fn test_custom_type_name() {
    let custom = TypeName("custom-type");
    let mut style_data = StyleData::new(false, None, vec![]);
    assert_eq!(style_data.get_type_name(), None);
    style_data.assign_type_name(custom.0);
    assert_eq!(style_data.get_type_name(), Some("custom-type"));
    assert!(style_data.has_type_name("custom-type"));
    assert!(!style_data.has_type_name("custom"));
}

#[test]
fn test_pseudo_element_support() {
    // A block entity (a `Node` only) gets two hidden nodes as children.
    let host = pseudo_element_host(false, false, true);
    assert_eq!(host, PseudoElementHost::HiddenNodes);
    let children = pseudo_element_children(host);
    let [before, after]: [PseudoElement; 2] =
        children.as_slice().try_into().expect("Expected 2 children");

    let mut before_data = StyleData::new(false, None, vec![]);
    before_data.mark_pseudo_element(before);
    let mut after_data = StyleData::new(false, None, vec![]);
    after_data.mark_pseudo_element(after);

    assert_eq!(before, PseudoElement::Before);
    assert_eq!(before_data.pseudo_element(), Some(PseudoElement::Before));
    assert_eq!(after, PseudoElement::After);
    assert_eq!(after_data.pseudo_element(), Some(PseudoElement::After));
    // each child is a hidden node with its own style data
    assert_eq!(
        pseudo_element_child_components(host),
        vec![PseudoChildComponent::StyleData, PseudoChildComponent::HiddenNode]
    );
}

#[test]
fn pseudo_element_hosts() {
    assert_eq!(pseudo_element_host(true, false, true), PseudoElementHost::TextSpans);
    assert_eq!(pseudo_element_host(false, true, false), PseudoElementHost::TextSpans);
    assert_eq!(pseudo_element_host(false, false, false), PseudoElementHost::Unsupported);
    assert!(pseudo_element_children(PseudoElementHost::Unsupported).is_empty());
    assert_eq!(
        pseudo_element_children(PseudoElementHost::TextSpans),
        vec![PseudoElement::Before, PseudoElement::After]
    );
}

#[test]
fn style_data_queries() {
    let data = StyleData::new(true, Some("main".to_owned()), vec!["a".to_owned(), "b".to_owned()]);
    assert!(data.is_root());
    assert_eq!(data.get_id(), Some("main"));
    assert!(data.has_class("a"));
    assert!(data.has_class("b"));
    assert!(!data.has_class("c"));
    assert_eq!(data.active_classes(), &["a".to_owned(), "b".to_owned()]);
    assert_eq!(data.pseudo_element(), None);
    let other = StyleData::new(false, None, vec![]);
    assert!(!other.is_root());
    assert_eq!(other.get_id(), None);
    assert!(!other.has_type_name(""));
}

#[test]
fn class_list_new_matches_adding_each_class() {
    let parsed = ClassList::new("class1 class2");
    let mut custom = ClassList::empty();
    custom.add("class1");
    custom.add("class2");
    assert_eq!(parsed, custom);
}

#[test]
fn class_list_new_splits_on_any_whitespace_and_dedups() {
    let parsed = ClassList::new("  a\tb\n a  c ");
    assert_eq!(parsed.to_string(), "a b c");
    assert_eq!(ClassList::new("").to_string(), "");
    assert_eq!(ClassList::new("   "), ClassList::empty());
    assert_eq!(ClassList::new("solo").to_string(), "solo");
    assert_eq!(ClassList::new("x\u{3000}y").to_string(), "x y");
}

#[test]
fn class_list_new_with_classes() {
    let class_list = ClassList::new_with_classes(&["my-class1", "my-class2", "my-class1"]);
    assert_eq!(class_list.to_string(), "my-class1 my-class2");
    assert!(class_list.contains("my-class2"));
}

#[test]
fn class_list_toggle() {
    let mut class_list = ClassList::new("class1 class2");
    class_list.toggle("class2");
    assert!(!class_list.contains("class2"));
    class_list.toggle("class2");
    assert!(class_list.contains("class2"));
    // toggling a present class twice moves it to the end
    class_list.toggle("class1");
    class_list.toggle("class1");
    assert_eq!(class_list.to_string(), "class2 class1");
}

#[test]
fn class_list_remove() {
    let mut class_list = ClassList::new("class1 class2");
    assert!(class_list.contains("class1"));
    class_list.remove("class1");
    assert!(!class_list.contains("class1"));
    class_list.remove("absent");
    assert_eq!(class_list.to_string(), "class2");
}

#[test]
fn class_list_add_is_idempotent() {
    let mut class_list = ClassList::empty();
    class_list.add("a");
    class_list.add("a");
        assert_eq!(class_list.to_string(), "a");
}

#[test]
fn class_list_from_str_and_inequality() {
    let parsed = ClassList::from_str("x y").unwrap();
    assert_eq!(parsed, ClassList::new("x y"));
    assert_ne!(parsed, ClassList::new("y x"));
    assert_ne!(parsed, ClassList::new("x"));
}

#[test]
fn attribute_list_set_get_remove() {
    let mut attributes = AttributeList::new();
    assert_eq!(attributes.get_attribute("role"), None);
    attributes.set_attribute("role", "button");
    attributes.set_attribute("lang", "en");
    assert_eq!(attributes.get_attribute("role"), Some("button"));
    attributes.set_attribute("role", "link");
    assert_eq!(attributes.get_attribute("role"), Some("link"));
    assert_eq!(attributes.get_attribute("lang"), Some("en"));
    attributes.remove_attribute("role");
    assert_eq!(attributes.get_attribute("role"), None);
    assert_eq!(attributes.get_attribute("lang"), Some("en"));
    attributes.remove_attribute("absent");
    assert_eq!(attributes.get_attribute("lang"), Some("en"));
}

#[test]
fn attribute_list_from_pairs_later_pair_wins() {
    let attributes = AttributeList::from_pairs(&[("a", "1"), ("b", "2"), ("a", "3")]);
    assert_eq!(attributes.get_attribute("a"), Some("3"));
    assert_eq!(attributes.get_attribute("b"), Some("2"));
    assert_eq!(attributes.get_attribute("c"), None);
}

#[test]
fn styled_new_and_default() {
    assert_eq!(Styled::new("sheet.css"), Styled::StyleSheet("sheet.css"));
    assert_eq!(Styled::<&str>::default(), Styled::Inherited);
    assert_ne!(Styled::<&str>::Block, Styled::Inherited);
}

#[test]
fn text_pseudo_elements_copy_the_host_font() {
    let host = pseudo_element_host(true, false, false);
    assert_eq!(
        pseudo_element_child_components(host),
        vec![
            PseudoChildComponent::StyleData,
            PseudoChildComponent::EmptyTextSpan,
            PseudoChildComponent::HostTextFont,
            PseudoChildComponent::HostLineHeight,
            PseudoChildComponent::HostTextColor,
        ]
    );
    assert_eq!(
        pseudo_element_child_components(PseudoElementHost::HiddenNodes),
        vec![PseudoChildComponent::StyleData, PseudoChildComponent::HiddenNode]
    );
    assert!(pseudo_element_child_components(PseudoElementHost::Unsupported).is_empty());
}

#[test]
fn class_list_text_form_parses_back() {
    let mut list = ClassList::empty();
    list.add("card");
    list.add("is-active");
    list.add("wide");
    let text = list.to_string();
    assert_eq!(text, "card is-active wide");
    assert!(ClassList::new(&text) == list);
    assert_eq!(ClassList::empty().to_string(), "");
}

#[test]
fn class_list_new_with_classes_holds_exactly_the_classes() {
    let list = ClassList::new_with_classes(&["b", "a", "b", "c", "a"]);
    assert_eq!(list.to_string(), "b a c");
    for class in ["a", "b", "c"] {
        assert!(list.contains(class));
    }
    assert!(!list.contains("d"));
    let cloned = list.clone();
    assert!(cloned == list);
}

#[test]
fn class_list_splits_on_unicode_whitespace() {
    let list = ClassList::new("a\u{00A0}b\u{3000}c\u{2028}d\te\u{200B}f");
    assert_eq!(list.to_string(), "a b c d e\u{200B}f");
}

#[test]
fn attribute_list_last_pair_wins_and_missing_is_absent() {
    let list = AttributeList::from_pairs(&[("a", "1"), ("b", "2"), ("a", "3")]);
    assert_eq!(list.get_attribute("a"), Some("3"));
    assert_eq!(list.get_attribute("b"), Some("2"));
    assert_eq!(list.get_attribute("c"), None);
}

#[test]
fn class_and_attribute_lists_default_to_empty() {
    assert!(ClassList::default() == ClassList::empty());
    assert_eq!(AttributeList::default().get_attribute("a"), None);
}

#[test]
fn a_type_name_is_never_replaced() {
    let mut data = StyleData::new(false, None, vec![]);
    assert_eq!(data.try_assign_type_name("button"), Ok(()));
    assert_eq!(data.try_assign_type_name("label"), Err("button"));
    assert_eq!(data.try_assign_type_name("button"), Err("button"));
    assert_eq!(data.get_type_name(), Some("button"));
}

#[test]
fn attribute_lists_compare_by_content_and_clone() {
    let a = AttributeList::from_pairs(&[("a", "1"), ("b", "2")]);
    let b = AttributeList::from_pairs(&[("b", "2"), ("a", "0"), ("a", "1")]);
    assert!(a == b);
    let mut c = a.clone();
    assert!(c == a);
    c.set_attribute("b", "3");
    assert!(c != a);
    assert_eq!(a.get_attribute("b"), Some("2"));
    c.remove_attribute("b");
    c.remove_attribute("missing");
    assert!(c != a);
    assert_eq!(c.get_attribute("b"), None);
    c.set_attribute("b", "2");
    assert!(c == a);
}
