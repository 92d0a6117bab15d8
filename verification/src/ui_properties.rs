use crate::component_properties::{
    has_value_in, spec_apply_actions, unset_range, ApplyAction, ApplyPlan,
    ComponentPropertiesRegistration,
};
use crate::property_map::ComputedValue;
use vstd::prelude::*;

verus! {

/// A component of the UI and text crates whose fields are styled through properties.
#[derive(Clone, Copy, Debug, PartialEq, Eq, Structural)]
pub enum UiComponent {
    /// `Visibility`.
    Visibility,
    /// `Node`: layout of a UI node.
    Node,
    /// `BackgroundColor`.
    BackgroundColor,
    /// `Outline`.
    Outline,
    /// `BorderColor`.
    BorderColor,
    /// `BoxShadow`.
    BoxShadow,
    /// `ZIndex`.
    ZIndex,
    /// `UiTransform`.
    UiTransform,
    /// `BackgroundGradient`.
    BackgroundGradient,
    /// `BorderGradient`.
    BorderGradient,
    /// `ImageNode`.
    ImageNode,
    /// `TextColor`.
    TextColor,
    /// `LineHeight`.
    LineHeight,
    /// `LetterSpacing`.
    LetterSpacing,
    /// `TextFont`.
    TextFont,
    /// `TextLayout`.
    TextLayout,
    /// `TextShadow`.
    TextShadow,
    /// `TextSpan`.
    TextSpan,
    /// `TextDecoration`: line and color of text decorations.
    TextDecoration,
}

/// The binding of a CSS property name to a field of a component.
#[derive(Clone, Copy, Debug)]
pub struct CssPropertyBinding {
    /// The CSS property name.
    pub css_name: &'static str,
    /// The component that holds the field.
    pub component: UiComponent,
    /// The path of the field inside the component; empty for the whole component.
    pub property_path: &'static str,
}

fn binding(css_name: &'static str, component: UiComponent, property_path: &'static str) -> (res:
    CssPropertyBinding)
    ensures
        res.css_name == css_name,
        res.component == component,
        res.property_path == property_path,
{
    CssPropertyBinding { css_name, component, property_path }
}

/// The components whose properties are registered, in registration order.
pub open spec fn spec_registered_components() -> Seq<UiComponent> {
    seq![
        UiComponent::Visibility,
        UiComponent::Node,
        UiComponent::BackgroundColor,
        UiComponent::Outline,
        UiComponent::BorderColor,
        UiComponent::BoxShadow,
        UiComponent::ZIndex,
        UiComponent::UiTransform,
        UiComponent::BackgroundGradient,
        UiComponent::BorderGradient,
        UiComponent::ImageNode,
        UiComponent::TextColor,
        UiComponent::LineHeight,
        UiComponent::LetterSpacing,
        UiComponent::TextFont,
        UiComponent::TextLayout,
        UiComponent::TextShadow,
        UiComponent::TextSpan,
        UiComponent::TextDecoration,
    ]
}

/// The components whose properties are inherited by default.
pub open spec fn spec_inherited_components() -> Seq<UiComponent> {
    seq![
        UiComponent::TextColor,
        UiComponent::TextFont,
        UiComponent::TextLayout,
        UiComponent::LineHeight,
        UiComponent::LetterSpacing,
        UiComponent::TextDecoration,
    ]
}

/// Whether a component is inserted when one of its properties gets a value and
/// removed when none has one. One flag governs both: `BackgroundColor`,
/// `BorderColor`, `ZIndex` and `UiTransform`, inserted when their property is
/// used, are also removed once none of their properties holds a value.
pub open spec fn spec_auto_insert_remove(component: UiComponent) -> bool {
    match component {
        UiComponent::BackgroundColor
        | UiComponent::Outline
        | UiComponent::BorderColor
        | UiComponent::BoxShadow
        | UiComponent::ZIndex
        | UiComponent::UiTransform
        | UiComponent::BackgroundGradient
        | UiComponent::BorderGradient
        | UiComponent::ImageNode
        | UiComponent::TextShadow => true,
        _ => false,
    }
}

/// The components whose properties are registered, in registration order.
pub fn registered_components() -> (res: Vec<UiComponent>)
    ensures
        res@ == spec_registered_components(),
{
    let mut res = Vec::new();
    res.push(UiComponent::Visibility);
    res.push(UiComponent::Node);
    res.push(UiComponent::BackgroundColor);
    res.push(UiComponent::Outline);
    res.push(UiComponent::BorderColor);
    res.push(UiComponent::BoxShadow);
    res.push(UiComponent::ZIndex);
    res.push(UiComponent::UiTransform);
    res.push(UiComponent::BackgroundGradient);
    res.push(UiComponent::BorderGradient);
    res.push(UiComponent::ImageNode);
    res.push(UiComponent::TextColor);
    res.push(UiComponent::LineHeight);
    res.push(UiComponent::LetterSpacing);
    res.push(UiComponent::TextFont);
    res.push(UiComponent::TextLayout);
    res.push(UiComponent::TextShadow);
    res.push(UiComponent::TextSpan);
    res.push(UiComponent::TextDecoration);
    assert(res@ =~= spec_registered_components());
    res
}

/// The components whose properties are inherited by default: text color, font,
/// layout, line height, letter spacing and decoration.
pub fn inherited_components() -> (res: Vec<UiComponent>)
    ensures
        res@ == spec_inherited_components(),
{
    let mut res = Vec::new();
    res.push(UiComponent::TextColor);
    res.push(UiComponent::TextFont);
    res.push(UiComponent::TextLayout);
    res.push(UiComponent::LineHeight);
    res.push(UiComponent::LetterSpacing);
    res.push(UiComponent::TextDecoration);
    assert(res@ =~= spec_inherited_components());
    res
}

/// Whether a component is inserted when one of its properties gets a value and
/// removed when none has one (the same flag governs both).
pub fn auto_insert_remove(component: UiComponent) -> (res: bool)
    ensures
        res == spec_auto_insert_remove(component),
{
    match component {
        UiComponent::BackgroundColor
        | UiComponent::Outline
        | UiComponent::BorderColor
        | UiComponent::BoxShadow
        | UiComponent::ZIndex
        | UiComponent::UiTransform
        | UiComponent::BackgroundGradient
        | UiComponent::BorderGradient
        | UiComponent::ImageNode
        | UiComponent::TextShadow => true,
        _ => false,
    }
}

/// The CSS property names of the UI and text components, each bound to the
/// field it sets.
pub open spec fn spec_css_property_bindings() -> Seq<CssPropertyBinding> {
    seq![
        CssPropertyBinding { css_name: "visibility", component: UiComponent::Visibility, property_path: "" },
        CssPropertyBinding { css_name: "display", component: UiComponent::Node, property_path: ".display" },
        CssPropertyBinding { css_name: "box-sizing", component: UiComponent::Node, property_path: ".box_sizing" },
        CssPropertyBinding { css_name: "position", component: UiComponent::Node, property_path: ".position_type" },
        CssPropertyBinding { css_name: "overflow-x", component: UiComponent::Node, property_path: ".overflow.x" },
        CssPropertyBinding { css_name: "overflow-y", component: UiComponent::Node, property_path: ".overflow.y" },
        CssPropertyBinding { css_name: "-bevy-scrollbar-width", component: UiComponent::Node, property_path: ".scrollbar_width" },
        CssPropertyBinding { css_name: "overflow-clip-margin", component: UiComponent::Node, property_path: ".overflow_clip_margin" },
        CssPropertyBinding { css_name: "left", component: UiComponent::Node, property_path: ".left" },
        CssPropertyBinding { css_name: "right", component: UiComponent::Node, property_path: ".right" },
        CssPropertyBinding { css_name: "top", component: UiComponent::Node, property_path: ".top" },
        CssPropertyBinding { css_name: "bottom", component: UiComponent::Node, property_path: ".bottom" },
        CssPropertyBinding { css_name: "width", component: UiComponent::Node, property_path: ".width" },
        CssPropertyBinding { css_name: "height", component: UiComponent::Node, property_path: ".height" },
        CssPropertyBinding { css_name: "min-width", component: UiComponent::Node, property_path: ".min_width" },
        CssPropertyBinding { css_name: "min-height", component: UiComponent::Node, property_path: ".min_height" },
        CssPropertyBinding { css_name: "max-width", component: UiComponent::Node, property_path: ".max_width" },
        CssPropertyBinding { css_name: "max-height", component: UiComponent::Node, property_path: ".max_height" },
        CssPropertyBinding { css_name: "aspect-ratio", component: UiComponent::Node, property_path: ".aspect_ratio" },
        CssPropertyBinding { css_name: "align-items", component: UiComponent::Node, property_path: ".align_items" },
        CssPropertyBinding { css_name: "justify-items", component: UiComponent::Node, property_path: ".justify_items" },
        CssPropertyBinding { css_name: "align-self", component: UiComponent::Node, property_path: ".align_self" },
        CssPropertyBinding { css_name: "justify-self", component: UiComponent::Node, property_path: ".justify_self" },
        CssPropertyBinding { css_name: "align-content", component: UiComponent::Node, property_path: ".align_content" },
        CssPropertyBinding { css_name: "justify-content", component: UiComponent::Node, property_path: ".justify_content" },
        CssPropertyBinding { css_name: "direction", component: UiComponent::Node, property_path: ".direction" },
        CssPropertyBinding { css_name: "margin-top", component: UiComponent::Node, property_path: ".margin.top" },
        CssPropertyBinding { css_name: "margin-right", component: UiComponent::Node, property_path: ".margin.right" },
        CssPropertyBinding { css_name: "margin-bottom", component: UiComponent::Node, property_path: ".margin.bottom" },
        CssPropertyBinding { css_name: "margin-left", component: UiComponent::Node, property_path: ".margin.left" },
        CssPropertyBinding { css_name: "padding-top", component: UiComponent::Node, property_path: ".padding.top" },
        CssPropertyBinding { css_name: "padding-right", component: UiComponent::Node, property_path: ".padding.right" },
        CssPropertyBinding { css_name: "padding-bottom", component: UiComponent::Node, property_path: ".padding.bottom" },
        CssPropertyBinding { css_name: "padding-left", component: UiComponent::Node, property_path: ".padding.left" },
        CssPropertyBinding { css_name: "border-left-width", component: UiComponent::Node, property_path: ".border.left" },
        CssPropertyBinding { css_name: "border-right-width", component: UiComponent::Node, property_path: ".border.right" },
        CssPropertyBinding { css_name: "border-top-width", component: UiComponent::Node, property_path: ".border.top" },
        CssPropertyBinding { css_name: "border-bottom-width", component: UiComponent::Node, property_path: ".border.bottom" },
        CssPropertyBinding { css_name: "flex-direction", component: UiComponent::Node, property_path: ".flex_direction" },
        CssPropertyBinding { css_name: "flex-wrap", component: UiComponent::Node, property_path: ".flex_wrap" },
        CssPropertyBinding { css_name: "flex-grow", component: UiComponent::Node, property_path: ".flex_grow" },
        CssPropertyBinding { css_name: "flex-shrink", component: UiComponent::Node, property_path: ".flex_shrink" },
        CssPropertyBinding { css_name: "flex-basis", component: UiComponent::Node, property_path: ".flex_basis" },
        CssPropertyBinding { css_name: "row-gap", component: UiComponent::Node, property_path: ".row_gap" },
        CssPropertyBinding { css_name: "column-gap", component: UiComponent::Node, property_path: ".column_gap" },
        CssPropertyBinding { css_name: "grid-auto-flow", component: UiComponent::Node, property_path: ".grid_auto_flow" },
        CssPropertyBinding { css_name: "grid-template-rows", component: UiComponent::Node, property_path: ".grid_template_rows" },
        CssPropertyBinding { css_name: "grid-template-columns", component: UiComponent::Node, property_path: ".grid_template_columns" },
        CssPropertyBinding { css_name: "grid-auto-rows", component: UiComponent::Node, property_path: ".grid_auto_rows" },
        CssPropertyBinding { css_name: "grid-auto-columns", component: UiComponent::Node, property_path: ".grid_auto_columns" },
        CssPropertyBinding { css_name: "grid-row", component: UiComponent::Node, property_path: ".grid_row" },
        CssPropertyBinding { css_name: "grid-column", component: UiComponent::Node, property_path: ".grid_column" },
        CssPropertyBinding { css_name: "border-top-left-radius", component: UiComponent::Node, property_path: ".border_radius.top_left" },
        CssPropertyBinding { css_name: "border-top-right-radius", component: UiComponent::Node, property_path: ".border_radius.top_right" },
        CssPropertyBinding { css_name: "border-bottom-left-radius", component: UiComponent::Node, property_path: ".border_radius.bottom_left" },
        CssPropertyBinding { css_name: "border-bottom-right-radius", component: UiComponent::Node, property_path: ".border_radius.bottom_right" },
        CssPropertyBinding { css_name: "background-color", component: UiComponent::BackgroundColor, property_path: ".0" },
        CssPropertyBinding { css_name: "border-top-color", component: UiComponent::BorderColor, property_path: ".top" },
        CssPropertyBinding { css_name: "border-right-color", component: UiComponent::BorderColor, property_path: ".right" },
        CssPropertyBinding { css_name: "border-bottom-color", component: UiComponent::BorderColor, property_path: ".bottom" },
        CssPropertyBinding { css_name: "border-left-color", component: UiComponent::BorderColor, property_path: ".left" },
        CssPropertyBinding { css_name: "outline-width", component: UiComponent::Outline, property_path: ".width" },
        CssPropertyBinding { css_name: "outline-offset", component: UiComponent::Outline, property_path: ".offset" },
        CssPropertyBinding { css_name: "outline-color", component: UiComponent::Outline, property_path: ".color" },
        CssPropertyBinding { css_name: "box-shadow", component: UiComponent::BoxShadow, property_path: "" },
        CssPropertyBinding { css_name: "z-index", component: UiComponent::ZIndex, property_path: "" },
        CssPropertyBinding { css_name: "translate", component: UiComponent::UiTransform, property_path: ".translation" },
        CssPropertyBinding { css_name: "scale", component: UiComponent::UiTransform, property_path: ".scale" },
        CssPropertyBinding { css_name: "rotate", component: UiComponent::UiTransform, property_path: ".rotation" },
        CssPropertyBinding { css_name: "-bevy-background-gradient", component: UiComponent::BackgroundGradient, property_path: "" },
        CssPropertyBinding { css_name: "border-image", component: UiComponent::BorderGradient, property_path: "" },
        CssPropertyBinding { css_name: "-bevy-image", component: UiComponent::ImageNode, property_path: ".image" },
        CssPropertyBinding { css_name: "-bevy-image-color", component: UiComponent::ImageNode, property_path: ".color" },
        CssPropertyBinding { css_name: "-bevy-image-mode", component: UiComponent::ImageNode, property_path: ".image_mode" },
        CssPropertyBinding { css_name: "-bevy-image-rect", component: UiComponent::ImageNode, property_path: ".rect" },
        CssPropertyBinding { css_name: "-bevy-image-box", component: UiComponent::ImageNode, property_path: ".visual_box" },
        CssPropertyBinding { css_name: "color", component: UiComponent::TextColor, property_path: ".0" },
        CssPropertyBinding { css_name: "font-family", component: UiComponent::TextFont, property_path: ".font" },
        CssPropertyBinding { css_name: "font-size", component: UiComponent::TextFont, property_path: ".font_size" },
        CssPropertyBinding { css_name: "font-weight", component: UiComponent::TextFont, property_path: ".weight" },
        CssPropertyBinding { css_name: "font-width", component: UiComponent::TextFont, property_path: ".width" },
        CssPropertyBinding { css_name: "font-style", component: UiComponent::TextFont, property_path: ".style" },
        CssPropertyBinding { css_name: "font-feature-settings", component: UiComponent::TextFont, property_path: ".font_features" },
        CssPropertyBinding { css_name: "font-variation-settings", component: UiComponent::TextFont, property_path: ".font_variations" },
        CssPropertyBinding { css_name: "-bevy-font-smooth", component: UiComponent::TextFont, property_path: ".font_smoothing" },
        CssPropertyBinding { css_name: "line-height", component: UiComponent::LineHeight, property_path: "" },
        CssPropertyBinding { css_name: "letter-spacing", component: UiComponent::LetterSpacing, property_path: "" },
        CssPropertyBinding { css_name: "text-align", component: UiComponent::TextLayout, property_path: ".justify" },
        CssPropertyBinding { css_name: "-bevy-line-break", component: UiComponent::TextLayout, property_path: ".linebreak" },
        CssPropertyBinding { css_name: "text-decoration-line", component: UiComponent::TextDecoration, property_path: ".line" },
        CssPropertyBinding { css_name: "text-decoration-color", component: UiComponent::TextDecoration, property_path: ".color" },
        CssPropertyBinding { css_name: "content", component: UiComponent::TextSpan, property_path: ".0" },
        CssPropertyBinding { css_name: "text-shadow", component: UiComponent::TextShadow, property_path: "" },
    ]
}

/// The CSS property names of the UI and text components, each bound to the
/// field it sets.
pub fn css_property_bindings() -> (res: Vec<CssPropertyBinding>)
    ensures
        res@ == spec_css_property_bindings(),
        forall|i: int|
            0 <= i < res@.len() ==> spec_registered_components().contains(
                #[trigger] res@[i].component,
            ),
{
    let res = vec![
        binding("visibility", UiComponent::Visibility, ""),
        binding("display", UiComponent::Node, ".display"),
        binding("box-sizing", UiComponent::Node, ".box_sizing"),
        binding("position", UiComponent::Node, ".position_type"),
        binding("overflow-x", UiComponent::Node, ".overflow.x"),
        binding("overflow-y", UiComponent::Node, ".overflow.y"),
        binding("-bevy-scrollbar-width", UiComponent::Node, ".scrollbar_width"),
        binding("overflow-clip-margin", UiComponent::Node, ".overflow_clip_margin"),
        binding("left", UiComponent::Node, ".left"),
        binding("right", UiComponent::Node, ".right"),
        binding("top", UiComponent::Node, ".top"),
        binding("bottom", UiComponent::Node, ".bottom"),
        binding("width", UiComponent::Node, ".width"),
        binding("height", UiComponent::Node, ".height"),
        binding("min-width", UiComponent::Node, ".min_width"),
        binding("min-height", UiComponent::Node, ".min_height"),
        binding("max-width", UiComponent::Node, ".max_width"),
        binding("max-height", UiComponent::Node, ".max_height"),
        binding("aspect-ratio", UiComponent::Node, ".aspect_ratio"),
        binding("align-items", UiComponent::Node, ".align_items"),
        binding("justify-items", UiComponent::Node, ".justify_items"),
        binding("align-self", UiComponent::Node, ".align_self"),
        binding("justify-self", UiComponent::Node, ".justify_self"),
        binding("align-content", UiComponent::Node, ".align_content"),
        binding("justify-content", UiComponent::Node, ".justify_content"),
        binding("direction", UiComponent::Node, ".direction"),
        binding("margin-top", UiComponent::Node, ".margin.top"),
        binding("margin-right", UiComponent::Node, ".margin.right"),
        binding("margin-bottom", UiComponent::Node, ".margin.bottom"),
        binding("margin-left", UiComponent::Node, ".margin.left"),
        binding("padding-top", UiComponent::Node, ".padding.top"),
        binding("padding-right", UiComponent::Node, ".padding.right"),
        binding("padding-bottom", UiComponent::Node, ".padding.bottom"),
        binding("padding-left", UiComponent::Node, ".padding.left"),
        binding("border-left-width", UiComponent::Node, ".border.left"),
        binding("border-right-width", UiComponent::Node, ".border.right"),
        binding("border-top-width", UiComponent::Node, ".border.top"),
        binding("border-bottom-width", UiComponent::Node, ".border.bottom"),
        binding("flex-direction", UiComponent::Node, ".flex_direction"),
        binding("flex-wrap", UiComponent::Node, ".flex_wrap"),
        binding("flex-grow", UiComponent::Node, ".flex_grow"),
        binding("flex-shrink", UiComponent::Node, ".flex_shrink"),
        binding("flex-basis", UiComponent::Node, ".flex_basis"),
        binding("row-gap", UiComponent::Node, ".row_gap"),
        binding("column-gap", UiComponent::Node, ".column_gap"),
        binding("grid-auto-flow", UiComponent::Node, ".grid_auto_flow"),
        binding("grid-template-rows", UiComponent::Node, ".grid_template_rows"),
        binding("grid-template-columns", UiComponent::Node, ".grid_template_columns"),
        binding("grid-auto-rows", UiComponent::Node, ".grid_auto_rows"),
        binding("grid-auto-columns", UiComponent::Node, ".grid_auto_columns"),
        binding("grid-row", UiComponent::Node, ".grid_row"),
        binding("grid-column", UiComponent::Node, ".grid_column"),
        binding("border-top-left-radius", UiComponent::Node, ".border_radius.top_left"),
        binding("border-top-right-radius", UiComponent::Node, ".border_radius.top_right"),
        binding("border-bottom-left-radius", UiComponent::Node, ".border_radius.bottom_left"),
        binding("border-bottom-right-radius", UiComponent::Node, ".border_radius.bottom_right"),
        binding("background-color", UiComponent::BackgroundColor, ".0"),
        binding("border-top-color", UiComponent::BorderColor, ".top"),
        binding("border-right-color", UiComponent::BorderColor, ".right"),
        binding("border-bottom-color", UiComponent::BorderColor, ".bottom"),
        binding("border-left-color", UiComponent::BorderColor, ".left"),
        binding("outline-width", UiComponent::Outline, ".width"),
        binding("outline-offset", UiComponent::Outline, ".offset"),
        binding("outline-color", UiComponent::Outline, ".color"),
        binding("box-shadow", UiComponent::BoxShadow, ""),
        binding("z-index", UiComponent::ZIndex, ""),
        binding("translate", UiComponent::UiTransform, ".translation"),
        binding("scale", UiComponent::UiTransform, ".scale"),
        binding("rotate", UiComponent::UiTransform, ".rotation"),
        binding("-bevy-background-gradient", UiComponent::BackgroundGradient, ""),
        binding("border-image", UiComponent::BorderGradient, ""),
        binding("-bevy-image", UiComponent::ImageNode, ".image"),
        binding("-bevy-image-color", UiComponent::ImageNode, ".color"),
        binding("-bevy-image-mode", UiComponent::ImageNode, ".image_mode"),
        binding("-bevy-image-rect", UiComponent::ImageNode, ".rect"),
        binding("-bevy-image-box", UiComponent::ImageNode, ".visual_box"),
        binding("color", UiComponent::TextColor, ".0"),
        binding("font-family", UiComponent::TextFont, ".font"),
        binding("font-size", UiComponent::TextFont, ".font_size"),
        binding("font-weight", UiComponent::TextFont, ".weight"),
        binding("font-width", UiComponent::TextFont, ".width"),
        binding("font-style", UiComponent::TextFont, ".style"),
        binding("font-feature-settings", UiComponent::TextFont, ".font_features"),
        binding("font-variation-settings", UiComponent::TextFont, ".font_variations"),
        binding("-bevy-font-smooth", UiComponent::TextFont, ".font_smoothing"),
        binding("line-height", UiComponent::LineHeight, ""),
        binding("letter-spacing", UiComponent::LetterSpacing, ""),
        binding("text-align", UiComponent::TextLayout, ".justify"),
        binding("-bevy-line-break", UiComponent::TextLayout, ".linebreak"),
        binding("text-decoration-line", UiComponent::TextDecoration, ".line"),
        binding("text-decoration-color", UiComponent::TextDecoration, ".color"),
        binding("content", UiComponent::TextSpan, ".0"),
        binding("text-shadow", UiComponent::TextShadow, ""),
    ];
    proof {
        assert(res@ =~= spec_css_property_bindings());
        assert forall|i: int| 0 <= i < res@.len() implies spec_registered_components().contains(
            #[trigger] res@[i].component,
        ) by {
            lemma_every_component_is_registered(res@[i].component);
        }
    }
    res
}

/// The first binding of `bindings` for the CSS property `css_name`, if any.
pub fn find_css_property(bindings: &Vec<CssPropertyBinding>, css_name: &str) -> (res: Option<
    CssPropertyBinding,
>)
    ensures
        match res {
            Some(b) => exists|i: int|
                0 <= i < bindings@.len() && #[trigger] bindings@[i] == b && b.css_name@ == css_name@
                    && forall|j: int| 0 <= j < i ==> (#[trigger] bindings@[j]).css_name@ != css_name@,
            None => forall|i: int|
                0 <= i < bindings@.len() ==> (#[trigger] bindings@[i]).css_name@ != css_name@,
        },
{
    let wanted = css_name.to_owned();
    let mut i: usize = 0;
    while i < bindings.len()
        invariant
            i <= bindings@.len(),
            wanted@ == css_name@,
            forall|j: int| 0 <= j < i ==> (#[trigger] bindings@[j]).css_name@ != css_name@,
        decreases bindings@.len() - i,
    {
        let candidate = bindings[i];
        let name = candidate.css_name.to_owned();
        if name == wanted {
            return Some(candidate);
        }
        i = i + 1;
    }
    None
}

/// The property paths of a component, in registration order: one per field,
/// the fields of a nested struct expanded in place, `.0` for the single field of
/// a tuple struct, and the empty path for a component set as a whole.
pub open spec fn spec_property_paths(component: UiComponent) -> Seq<&'static str> {
    match component {
        UiComponent::Visibility => seq![""],
        UiComponent::Node => seq![".display", ".box_sizing", ".position_type", ".overflow.x", ".overflow.y", ".scrollbar_width", ".overflow_clip_margin", ".left", ".right", ".top", ".bottom", ".width", ".height", ".min_width", ".min_height", ".max_width", ".max_height", ".aspect_ratio", ".align_items", ".justify_items", ".align_self", ".justify_self", ".align_content", ".justify_content", ".direction", ".margin.left", ".margin.right", ".margin.top", ".margin.bottom", ".padding.left", ".padding.right", ".padding.top", ".padding.bottom", ".border.left", ".border.right", ".border.top", ".border.bottom", ".border_radius.top_left", ".border_radius.top_right", ".border_radius.bottom_right", ".border_radius.bottom_left", ".flex_direction", ".flex_wrap", ".flex_grow", ".flex_shrink", ".flex_basis", ".row_gap", ".column_gap", ".grid_auto_flow", ".grid_template_rows", ".grid_template_columns", ".grid_auto_rows", ".grid_auto_columns", ".grid_row", ".grid_column"],
        UiComponent::BackgroundColor => seq![".0"],
        UiComponent::BorderColor => seq![".top", ".right", ".bottom", ".left"],
        UiComponent::Outline => seq![".width", ".offset", ".color"],
        UiComponent::BoxShadow => seq![""],
        UiComponent::ZIndex => seq![""],
        UiComponent::UiTransform => seq![".translation", ".scale", ".rotation"],
        UiComponent::BackgroundGradient => seq![""],
        UiComponent::BorderGradient => seq![""],
        UiComponent::ImageNode => seq![".color", ".image", ".texture_atlas", ".flip_x", ".flip_y", ".rect", ".image_mode", ".visual_box"],
        UiComponent::TextColor => seq![".0"],
        UiComponent::LineHeight => seq![""],
        UiComponent::LetterSpacing => seq![""],
        UiComponent::TextFont => seq![".font", ".font_size", ".weight", ".width", ".style", ".font_smoothing", ".font_features", ".font_variations"],
        UiComponent::TextLayout => seq![".justify", ".linebreak"],
        UiComponent::TextSpan => seq![".0"],
        UiComponent::TextShadow => seq![""],
        UiComponent::TextDecoration => seq![".line", ".color"],
    }
}

/// The property paths of a component, in registration order.
pub fn property_paths(component: UiComponent) -> (res: Vec<&'static str>)
    ensures
        res@ == spec_property_paths(component),
{
    let res = match component {
        UiComponent::Visibility => vec![""],
        UiComponent::Node => vec![".display", ".box_sizing", ".position_type", ".overflow.x", ".overflow.y", ".scrollbar_width", ".overflow_clip_margin", ".left", ".right", ".top", ".bottom", ".width", ".height", ".min_width", ".min_height", ".max_width", ".max_height", ".aspect_ratio", ".align_items", ".justify_items", ".align_self", ".justify_self", ".align_content", ".justify_content", ".direction", ".margin.left", ".margin.right", ".margin.top", ".margin.bottom", ".padding.left", ".padding.right", ".padding.top", ".padding.bottom", ".border.left", ".border.right", ".border.top", ".border.bottom", ".border_radius.top_left", ".border_radius.top_right", ".border_radius.bottom_right", ".border_radius.bottom_left", ".flex_direction", ".flex_wrap", ".flex_grow", ".flex_shrink", ".flex_basis", ".row_gap", ".column_gap", ".grid_auto_flow", ".grid_template_rows", ".grid_template_columns", ".grid_auto_rows", ".grid_auto_columns", ".grid_row", ".grid_column"],
        UiComponent::BackgroundColor => vec![".0"],
        UiComponent::BorderColor => vec![".top", ".right", ".bottom", ".left"],
        UiComponent::Outline => vec![".width", ".offset", ".color"],
        UiComponent::BoxShadow => vec![""],
        UiComponent::ZIndex => vec![""],
        UiComponent::UiTransform => vec![".translation", ".scale", ".rotation"],
        UiComponent::BackgroundGradient => vec![""],
        UiComponent::BorderGradient => vec![""],
        UiComponent::ImageNode => vec![".color", ".image", ".texture_atlas", ".flip_x", ".flip_y", ".rect", ".image_mode", ".visual_box"],
        UiComponent::TextColor => vec![".0"],
        UiComponent::LineHeight => vec![""],
        UiComponent::LetterSpacing => vec![""],
        UiComponent::TextFont => vec![".font", ".font_size", ".weight", ".width", ".style", ".font_smoothing", ".font_features", ".font_variations"],
        UiComponent::TextLayout => vec![".justify", ".linebreak"],
        UiComponent::TextSpan => vec![".0"],
        UiComponent::TextShadow => vec![""],
        UiComponent::TextDecoration => vec![".line", ".color"],
    };
    assert(res@ =~= spec_property_paths(component));
    res
}

/// Every CSS property name is bound to one of the registered properties of its component.
pub proof fn lemma_css_bindings_name_registered_properties()
    ensures
        forall|i: int|
            0 <= i < spec_css_property_bindings().len() ==> spec_property_paths(
                (#[trigger] spec_css_property_bindings()[i]).component,
            ).contains(spec_css_property_bindings()[i].property_path),
{
    assert(spec_property_paths(UiComponent::Visibility)[0] == "");
    assert(spec_property_paths(UiComponent::Node)[0] == ".display");
    assert(spec_property_paths(UiComponent::Node)[1] == ".box_sizing");
    assert(spec_property_paths(UiComponent::Node)[2] == ".position_type");
    assert(spec_property_paths(UiComponent::Node)[3] == ".overflow.x");
    assert(spec_property_paths(UiComponent::Node)[4] == ".overflow.y");
    assert(spec_property_paths(UiComponent::Node)[5] == ".scrollbar_width");
    assert(spec_property_paths(UiComponent::Node)[6] == ".overflow_clip_margin");
    assert(spec_property_paths(UiComponent::Node)[7] == ".left");
    assert(spec_property_paths(UiComponent::Node)[8] == ".right");
    assert(spec_property_paths(UiComponent::Node)[9] == ".top");
    assert(spec_property_paths(UiComponent::Node)[10] == ".bottom");
    assert(spec_property_paths(UiComponent::Node)[11] == ".width");
    assert(spec_property_paths(UiComponent::Node)[12] == ".height");
    assert(spec_property_paths(UiComponent::Node)[13] == ".min_width");
    assert(spec_property_paths(UiComponent::Node)[14] == ".min_height");
    assert(spec_property_paths(UiComponent::Node)[15] == ".max_width");
    assert(spec_property_paths(UiComponent::Node)[16] == ".max_height");
    assert(spec_property_paths(UiComponent::Node)[17] == ".aspect_ratio");
    assert(spec_property_paths(UiComponent::Node)[18] == ".align_items");
    assert(spec_property_paths(UiComponent::Node)[19] == ".justify_items");
    assert(spec_property_paths(UiComponent::Node)[20] == ".align_self");
    assert(spec_property_paths(UiComponent::Node)[21] == ".justify_self");
    assert(spec_property_paths(UiComponent::Node)[22] == ".align_content");
    assert(spec_property_paths(UiComponent::Node)[23] == ".justify_content");
    assert(spec_property_paths(UiComponent::Node)[24] == ".direction");
    assert(spec_property_paths(UiComponent::Node)[27] == ".margin.top");
    assert(spec_property_paths(UiComponent::Node)[26] == ".margin.right");
    assert(spec_property_paths(UiComponent::Node)[28] == ".margin.bottom");
    assert(spec_property_paths(UiComponent::Node)[25] == ".margin.left");
    assert(spec_property_paths(UiComponent::Node)[31] == ".padding.top");
    assert(spec_property_paths(UiComponent::Node)[30] == ".padding.right");
    assert(spec_property_paths(UiComponent::Node)[32] == ".padding.bottom");
    assert(spec_property_paths(UiComponent::Node)[29] == ".padding.left");
    assert(spec_property_paths(UiComponent::Node)[33] == ".border.left");
    assert(spec_property_paths(UiComponent::Node)[34] == ".border.right");
    assert(spec_property_paths(UiComponent::Node)[35] == ".border.top");
    assert(spec_property_paths(UiComponent::Node)[36] == ".border.bottom");
    assert(spec_property_paths(UiComponent::Node)[41] == ".flex_direction");
    assert(spec_property_paths(UiComponent::Node)[42] == ".flex_wrap");
    assert(spec_property_paths(UiComponent::Node)[43] == ".flex_grow");
    assert(spec_property_paths(UiComponent::Node)[44] == ".flex_shrink");
    assert(spec_property_paths(UiComponent::Node)[45] == ".flex_basis");
    assert(spec_property_paths(UiComponent::Node)[46] == ".row_gap");
    assert(spec_property_paths(UiComponent::Node)[47] == ".column_gap");
    assert(spec_property_paths(UiComponent::Node)[48] == ".grid_auto_flow");
    assert(spec_property_paths(UiComponent::Node)[49] == ".grid_template_rows");
    assert(spec_property_paths(UiComponent::Node)[50] == ".grid_template_columns");
    assert(spec_property_paths(UiComponent::Node)[51] == ".grid_auto_rows");
    assert(spec_property_paths(UiComponent::Node)[52] == ".grid_auto_columns");
    assert(spec_property_paths(UiComponent::Node)[53] == ".grid_row");
    assert(spec_property_paths(UiComponent::Node)[54] == ".grid_column");
    assert(spec_property_paths(UiComponent::Node)[37] == ".border_radius.top_left");
    assert(spec_property_paths(UiComponent::Node)[38] == ".border_radius.top_right");
    assert(spec_property_paths(UiComponent::Node)[40] == ".border_radius.bottom_left");
    assert(spec_property_paths(UiComponent::Node)[39] == ".border_radius.bottom_right");
    assert(spec_property_paths(UiComponent::BackgroundColor)[0] == ".0");
    assert(spec_property_paths(UiComponent::BorderColor)[0] == ".top");
    assert(spec_property_paths(UiComponent::BorderColor)[1] == ".right");
    assert(spec_property_paths(UiComponent::BorderColor)[2] == ".bottom");
    assert(spec_property_paths(UiComponent::BorderColor)[3] == ".left");
    assert(spec_property_paths(UiComponent::Outline)[0] == ".width");
    assert(spec_property_paths(UiComponent::Outline)[1] == ".offset");
    assert(spec_property_paths(UiComponent::Outline)[2] == ".color");
    assert(spec_property_paths(UiComponent::BoxShadow)[0] == "");
    assert(spec_property_paths(UiComponent::ZIndex)[0] == "");
    assert(spec_property_paths(UiComponent::UiTransform)[0] == ".translation");
    assert(spec_property_paths(UiComponent::UiTransform)[1] == ".scale");
    assert(spec_property_paths(UiComponent::UiTransform)[2] == ".rotation");
    assert(spec_property_paths(UiComponent::BackgroundGradient)[0] == "");
    assert(spec_property_paths(UiComponent::BorderGradient)[0] == "");
    assert(spec_property_paths(UiComponent::ImageNode)[1] == ".image");
    assert(spec_property_paths(UiComponent::ImageNode)[0] == ".color");
    assert(spec_property_paths(UiComponent::ImageNode)[6] == ".image_mode");
    assert(spec_property_paths(UiComponent::ImageNode)[5] == ".rect");
    assert(spec_property_paths(UiComponent::ImageNode)[7] == ".visual_box");
    assert(spec_property_paths(UiComponent::TextColor)[0] == ".0");
    assert(spec_property_paths(UiComponent::TextFont)[0] == ".font");
    assert(spec_property_paths(UiComponent::TextFont)[1] == ".font_size");
    assert(spec_property_paths(UiComponent::TextFont)[2] == ".weight");
    assert(spec_property_paths(UiComponent::TextFont)[3] == ".width");
    assert(spec_property_paths(UiComponent::TextFont)[4] == ".style");
    assert(spec_property_paths(UiComponent::TextFont)[6] == ".font_features");
    assert(spec_property_paths(UiComponent::TextFont)[7] == ".font_variations");
    assert(spec_property_paths(UiComponent::TextFont)[5] == ".font_smoothing");
    assert(spec_property_paths(UiComponent::LineHeight)[0] == "");
    assert(spec_property_paths(UiComponent::LetterSpacing)[0] == "");
    assert(spec_property_paths(UiComponent::TextLayout)[0] == ".justify");
    assert(spec_property_paths(UiComponent::TextLayout)[1] == ".linebreak");
    assert(spec_property_paths(UiComponent::TextDecoration)[0] == ".line");
    assert(spec_property_paths(UiComponent::TextDecoration)[1] == ".color");
    assert(spec_property_paths(UiComponent::TextSpan)[0] == ".0");
    assert(spec_property_paths(UiComponent::TextShadow)[0] == "");
    assert forall|i: int| 0 <= i < spec_css_property_bindings().len() implies spec_property_paths(
        (#[trigger] spec_css_property_bindings()[i]).component,
    ).contains(spec_css_property_bindings()[i].property_path) by {
        let b = spec_css_property_bindings()[i];
        let paths = spec_property_paths(b.component);
        assert(exists|k: int| 0 <= k < paths.len() && paths[k] == b.property_path);
    }
}

/// Every UI component has its properties registered.
pub proof fn lemma_every_component_is_registered(c: UiComponent)
    ensures
        spec_registered_components().contains(c),
{
    let s = spec_registered_components();
    match c {
        UiComponent::Visibility => {
            assert(s[0] == c);
        },
        UiComponent::Node => {
            assert(s[1] == c);
        },
        UiComponent::BackgroundColor => {
            assert(s[2] == c);
        },
        UiComponent::Outline => {
            assert(s[3] == c);
        },
        UiComponent::BorderColor => {
            assert(s[4] == c);
        },
        UiComponent::BoxShadow => {
            assert(s[5] == c);
        },
        UiComponent::ZIndex => {
            assert(s[6] == c);
        },
        UiComponent::UiTransform => {
            assert(s[7] == c);
        },
        UiComponent::BackgroundGradient => {
            assert(s[8] == c);
        },
        UiComponent::BorderGradient => {
            assert(s[9] == c);
        },
        UiComponent::ImageNode => {
            assert(s[10] == c);
        },
        UiComponent::TextColor => {
            assert(s[11] == c);
        },
        UiComponent::LineHeight => {
            assert(s[12] == c);
        },
        UiComponent::LetterSpacing => {
            assert(s[13] == c);
        },
        UiComponent::TextFont => {
            assert(s[14] == c);
        },
        UiComponent::TextLayout => {
            assert(s[15] == c);
        },
        UiComponent::TextShadow => {
            assert(s[16] == c);
        },
        UiComponent::TextSpan => {
            assert(s[17] == c);
        },
        UiComponent::TextDecoration => {
            assert(s[18] == c);
        },
    }
}

/// Every component whose properties are inherited has its properties registered.
pub proof fn lemma_inherited_components_are_registered()
    ensures
        forall|i: int|
            0 <= i < spec_inherited_components().len() ==> spec_registered_components().contains(
                #[trigger] spec_inherited_components()[i],
            ),
{
    assert forall|i: int| 0 <= i < spec_inherited_components().len() implies spec_registered_components().contains(
        #[trigger] spec_inherited_components()[i],
    ) by {
        lemma_every_component_is_registered(spec_inherited_components()[i]);
    }
}

/// Using a property inserts its component: when one of the properties of a
/// mutable component that is inserted automatically (`background-color` of
/// `BackgroundColor`, say) holds a value and the entity lacks the component,
/// its default value is written, inserted, and the insertion announced after
/// it, and writing consumes the value.
pub proof fn lemma_used_property_inserts_its_component<V>(
    component: UiComponent,
    registration: ComponentPropertiesRegistration,
    values: Seq<ComputedValue<V>>,
    id: int,
)
    requires
        spec_auto_insert_remove(component),
        registration.spec_auto_insert_remove() == spec_auto_insert_remove(component),
        registration.spec_is_mutable(),
        registration.start() <= id < registration.end(),
        registration.end() <= values.len(),
        values[id] is Value,
    ensures
        registration.spec_plan_apply(values, false) == ApplyPlan::InsertDefault,
        spec_apply_actions(
            ApplyPlan::InsertDefault,
            has_value_in(values, registration.start(), registration.end()),
        ) == seq![ApplyAction::InsertComponent, ApplyAction::EmitAutoInserted],
        unset_range(values, registration.start(), registration.end())[id] is Unset,
{
    registration.lemma_range_is_natural();
    assert(values[id] is Value);
    assert(has_value_in(values, registration.start(), registration.end()));
    assert(spec_apply_actions(ApplyPlan::InsertDefault, true) =~= seq![
        ApplyAction::InsertComponent,
        ApplyAction::EmitAutoInserted,
    ]);
}


/// Which components are inserted automatically when one of their properties is
/// used, and removed when none is: the outline, the box shadow, both gradients,
/// the image and the text shadow, declared so, and the background color, the
/// border color, the z-index and the transform, which the documentation says
/// are inserted when their property is used. No other component is ever
/// inserted or removed on its own.
pub proof fn lemma_auto_inserted_components()
    ensures
        !spec_auto_insert_remove(UiComponent::Visibility),
        !spec_auto_insert_remove(UiComponent::Node),
        spec_auto_insert_remove(UiComponent::BackgroundColor),
        spec_auto_insert_remove(UiComponent::Outline),
        spec_auto_insert_remove(UiComponent::BorderColor),
        spec_auto_insert_remove(UiComponent::BoxShadow),
        spec_auto_insert_remove(UiComponent::ZIndex),
        spec_auto_insert_remove(UiComponent::UiTransform),
        spec_auto_insert_remove(UiComponent::BackgroundGradient),
        spec_auto_insert_remove(UiComponent::BorderGradient),
        spec_auto_insert_remove(UiComponent::ImageNode),
        !spec_auto_insert_remove(UiComponent::TextColor),
        !spec_auto_insert_remove(UiComponent::LineHeight),
        !spec_auto_insert_remove(UiComponent::LetterSpacing),
        !spec_auto_insert_remove(UiComponent::TextFont),
        !spec_auto_insert_remove(UiComponent::TextLayout),
        spec_auto_insert_remove(UiComponent::TextShadow),
        !spec_auto_insert_remove(UiComponent::TextSpan),
        !spec_auto_insert_remove(UiComponent::TextDecoration),
{
}

/// Which components are inherited by default: the text color, the font, the
/// text layout, the line height, the letter spacing and the text decoration,
/// each listed once, and no other component.
pub proof fn lemma_inherited_text_components()
    ensures
        forall|c: UiComponent|
            spec_inherited_components().contains(c) <==> (c == UiComponent::TextColor || c == UiComponent::TextFont || c == UiComponent::TextLayout || c == UiComponent::LineHeight || c == UiComponent::LetterSpacing || c == UiComponent::TextDecoration),
        spec_inherited_components().no_duplicates(),
{
    let s = spec_inherited_components();
    assert(s[0] == UiComponent::TextColor);
    assert(s[1] == UiComponent::TextFont);
    assert(s[2] == UiComponent::TextLayout);
    assert(s[3] == UiComponent::LineHeight);
    assert(s[4] == UiComponent::LetterSpacing);
    assert(s[5] == UiComponent::TextDecoration);
    assert forall|c: UiComponent| s.contains(c) implies (c == UiComponent::TextColor || c == UiComponent::TextFont || c == UiComponent::TextLayout || c == UiComponent::LineHeight || c == UiComponent::LetterSpacing || c == UiComponent::TextDecoration) by {
        let i = choose|i: int| 0 <= i < s.len() && s[i] == c;
        assert(i == 0 || i == 1 || i == 2 || i == 3 || i == 4 || i == 5);
    }
}


/// Whether `binding` sets, for a CSS property of one side or corner of a box,
/// the field of that same side or corner: `margin-<side>`, `padding-<side>`,
/// `border-<side>-width` and `<side>` set the field `<side>` of the node's
/// margin, padding, border and position, `border-<side>-color` the field
/// `<side>` of the border color, and `border-<corner>-radius` the field
/// `<corner>` of the node's border radius.
pub open spec fn sets_its_own_side(binding: CssPropertyBinding) -> bool {
    &&& binding.css_name@ == "margin-top"@ ==> binding.component == UiComponent::Node
        && binding.property_path@ == ".margin.top"@
    &&& binding.css_name@ == "margin-right"@ ==> binding.component == UiComponent::Node
        && binding.property_path@ == ".margin.right"@
    &&& binding.css_name@ == "margin-bottom"@ ==> binding.component == UiComponent::Node
        && binding.property_path@ == ".margin.bottom"@
    &&& binding.css_name@ == "margin-left"@ ==> binding.component == UiComponent::Node
        && binding.property_path@ == ".margin.left"@
    &&& binding.css_name@ == "padding-top"@ ==> binding.component == UiComponent::Node
        && binding.property_path@ == ".padding.top"@
    &&& binding.css_name@ == "padding-right"@ ==> binding.component == UiComponent::Node
        && binding.property_path@ == ".padding.right"@
    &&& binding.css_name@ == "padding-bottom"@ ==> binding.component == UiComponent::Node
        && binding.property_path@ == ".padding.bottom"@
    &&& binding.css_name@ == "padding-left"@ ==> binding.component == UiComponent::Node
        && binding.property_path@ == ".padding.left"@
    &&& binding.css_name@ == "border-top-width"@ ==> binding.component == UiComponent::Node
        && binding.property_path@ == ".border.top"@
    &&& binding.css_name@ == "border-right-width"@ ==> binding.component == UiComponent::Node
        && binding.property_path@ == ".border.right"@
    &&& binding.css_name@ == "border-bottom-width"@ ==> binding.component == UiComponent::Node
        && binding.property_path@ == ".border.bottom"@
    &&& binding.css_name@ == "border-left-width"@ ==> binding.component == UiComponent::Node
        && binding.property_path@ == ".border.left"@
    &&& binding.css_name@ == "top"@ ==> binding.component == UiComponent::Node
        && binding.property_path@ == ".top"@
    &&& binding.css_name@ == "right"@ ==> binding.component == UiComponent::Node
        && binding.property_path@ == ".right"@
    &&& binding.css_name@ == "bottom"@ ==> binding.component == UiComponent::Node
        && binding.property_path@ == ".bottom"@
    &&& binding.css_name@ == "left"@ ==> binding.component == UiComponent::Node
        && binding.property_path@ == ".left"@
    &&& binding.css_name@ == "border-top-color"@ ==> binding.component == UiComponent::BorderColor
        && binding.property_path@ == ".top"@
    &&& binding.css_name@ == "border-right-color"@ ==> binding.component == UiComponent::BorderColor
        && binding.property_path@ == ".right"@
    &&& binding.css_name@ == "border-bottom-color"@ ==> binding.component == UiComponent::BorderColor
        && binding.property_path@ == ".bottom"@
    &&& binding.css_name@ == "border-left-color"@ ==> binding.component == UiComponent::BorderColor
        && binding.property_path@ == ".left"@
    &&& binding.css_name@ == "border-top-left-radius"@ ==> binding.component == UiComponent::Node
        && binding.property_path@ == ".border_radius.top_left"@
    &&& binding.css_name@ == "border-top-right-radius"@ ==> binding.component == UiComponent::Node
        && binding.property_path@ == ".border_radius.top_right"@
    &&& binding.css_name@ == "border-bottom-left-radius"@ ==> binding.component == UiComponent::Node
        && binding.property_path@ == ".border_radius.bottom_left"@
    &&& binding.css_name@ == "border-bottom-right-radius"@ ==> binding.component == UiComponent::Node
        && binding.property_path@ == ".border_radius.bottom_right"@
}

/// Whether some binding of the table is for the CSS property `css_name`.
pub open spec fn is_bound(css_name: Seq<char>) -> bool {
    exists|i: int|
        0 <= i < spec_css_property_bindings().len()
            && #[trigger] spec_css_property_bindings()[i].css_name@ == css_name
}

/// The bindings of rows 0 to 15 set their own side.
proof fn lemma_sides_in_rows_0()
    ensures
        forall|i: int|
            0 <= i < 16 ==> sets_its_own_side(#[trigger] spec_css_property_bindings()[i]),
{
    reveal_strlit("visibility");
    assert("visibility"@.len() == 10);
    reveal_strlit("display");
    assert("display"@.len() == 7);
    reveal_strlit("box-sizing");
    assert("box-sizing"@.len() == 10);
    reveal_strlit("position");
    assert("position"@.len() == 8);
    reveal_strlit("overflow-x");
    assert("overflow-x"@.len() == 10);
    reveal_strlit("overflow-y");
    assert("overflow-y"@.len() == 10);
    reveal_strlit("-bevy-scrollbar-width");
    assert("-bevy-scrollbar-width"@.len() == 21);
    reveal_strlit("overflow-clip-margin");
    assert("overflow-clip-margin"@.len() == 20);
    reveal_strlit("left");
    assert("left"@.len() == 4);
    reveal_strlit("right");
    assert("right"@.len() == 5);
    reveal_strlit("top");
    assert("top"@.len() == 3);
    reveal_strlit("bottom");
    assert("bottom"@.len() == 6);
    reveal_strlit("width");
    assert("width"@.len() == 5);
    reveal_strlit("height");
    assert("height"@.len() == 6);
    reveal_strlit("min-width");
    assert("min-width"@.len() == 9);
    reveal_strlit("min-height");
    assert("min-height"@.len() == 10);
    reveal_strlit("margin-top");
    assert("margin-top"@.len() == 10);
    reveal_strlit("margin-right");
    assert("margin-right"@.len() == 12);
    reveal_strlit("margin-bottom");
    assert("margin-bottom"@.len() == 13);
    reveal_strlit("margin-left");
    assert("margin-left"@.len() == 11);
    reveal_strlit("padding-top");
    assert("padding-top"@.len() == 11);
    reveal_strlit("padding-right");
    assert("padding-right"@.len() == 13);
    reveal_strlit("padding-bottom");
    assert("padding-bottom"@.len() == 14);
    reveal_strlit("padding-left");
    assert("padding-left"@.len() == 12);
    reveal_strlit("border-top-width");
    assert("border-top-width"@.len() == 16);
    reveal_strlit("border-right-width");
    assert("border-right-width"@.len() == 18);
    reveal_strlit("border-bottom-width");
    assert("border-bottom-width"@.len() == 19);
    reveal_strlit("border-left-width");
    assert("border-left-width"@.len() == 17);
    reveal_strlit("border-top-color");
    assert("border-top-color"@.len() == 16);
    reveal_strlit("border-right-color");
    assert("border-right-color"@.len() == 18);
    reveal_strlit("border-bottom-color");
    assert("border-bottom-color"@.len() == 19);
    reveal_strlit("border-left-color");
    assert("border-left-color"@.len() == 17);
    reveal_strlit("border-top-left-radius");
    assert("border-top-left-radius"@.len() == 22);
    reveal_strlit("border-top-right-radius");
    assert("border-top-right-radius"@.len() == 23);
    reveal_strlit("border-bottom-left-radius");
    assert("border-bottom-left-radius"@.len() == 25);
    reveal_strlit("border-bottom-right-radius");
    assert("border-bottom-right-radius"@.len() == 26);
    assert("visibility"@[0] == 'v');
    assert("margin-top"@[0] == 'm');
    assert("box-sizing"@[0] == 'b');
    assert("overflow-x"@[0] == 'o');
    assert("overflow-y"@[0] == 'o');
    assert("width"@[0] == 'w');
    assert("right"@[0] == 'r');
    assert("height"@[0] == 'h');
    assert("bottom"@[0] == 'b');
    assert("min-height"@[1] == 'i');
    assert("margin-top"@[1] == 'a');
    assert(sets_its_own_side(spec_css_property_bindings()[0]));
    assert(sets_its_own_side(spec_css_property_bindings()[1]));
    assert(sets_its_own_side(spec_css_property_bindings()[2]));
    assert(sets_its_own_side(spec_css_property_bindings()[3]));
    assert(sets_its_own_side(spec_css_property_bindings()[4]));
    assert(sets_its_own_side(spec_css_property_bindings()[5]));
    assert(sets_its_own_side(spec_css_property_bindings()[6]));
    assert(sets_its_own_side(spec_css_property_bindings()[7]));
    assert(sets_its_own_side(spec_css_property_bindings()[8]));
    assert(sets_its_own_side(spec_css_property_bindings()[9]));
    assert(sets_its_own_side(spec_css_property_bindings()[10]));
    assert(sets_its_own_side(spec_css_property_bindings()[11]));
    assert(sets_its_own_side(spec_css_property_bindings()[12]));
    assert(sets_its_own_side(spec_css_property_bindings()[13]));
    assert(sets_its_own_side(spec_css_property_bindings()[14]));
    assert(sets_its_own_side(spec_css_property_bindings()[15]));
    assert forall|i: int| 0 <= i < 16 implies sets_its_own_side(
        #[trigger] spec_css_property_bindings()[i],
    ) by {
        assert(i == 0 || i == 1 || i == 2 || i == 3 || i == 4 || i == 5 || i == 6 || i == 7 || i == 8 || i == 9 || i == 10 || i == 11 || i == 12 || i == 13 || i == 14 || i == 15);
    }
}

/// The bindings of rows 16 to 31 set their own side.
proof fn lemma_sides_in_rows_1()
    ensures
        forall|i: int|
            16 <= i < 32 ==> sets_its_own_side(#[trigger] spec_css_property_bindings()[i]),
{
    reveal_strlit("max-width");
    assert("max-width"@.len() == 9);
    reveal_strlit("max-height");
    assert("max-height"@.len() == 10);
    reveal_strlit("aspect-ratio");
    assert("aspect-ratio"@.len() == 12);
    reveal_strlit("align-items");
    assert("align-items"@.len() == 11);
    reveal_strlit("justify-items");
    assert("justify-items"@.len() == 13);
    reveal_strlit("align-self");
    assert("align-self"@.len() == 10);
    reveal_strlit("justify-self");
    assert("justify-self"@.len() == 12);
    reveal_strlit("align-content");
    assert("align-content"@.len() == 13);
    reveal_strlit("justify-content");
    assert("justify-content"@.len() == 15);
    reveal_strlit("direction");
    assert("direction"@.len() == 9);
    reveal_strlit("margin-top");
    assert("margin-top"@.len() == 10);
    reveal_strlit("margin-right");
    assert("margin-right"@.len() == 12);
    reveal_strlit("margin-bottom");
    assert("margin-bottom"@.len() == 13);
    reveal_strlit("margin-left");
    assert("margin-left"@.len() == 11);
    reveal_strlit("padding-top");
    assert("padding-top"@.len() == 11);
    reveal_strlit("padding-right");
    assert("padding-right"@.len() == 13);
    reveal_strlit("padding-bottom");
    assert("padding-bottom"@.len() == 14);
    reveal_strlit("padding-left");
    assert("padding-left"@.len() == 12);
    reveal_strlit("border-top-width");
    assert("border-top-width"@.len() == 16);
    reveal_strlit("border-right-width");
    assert("border-right-width"@.len() == 18);
    reveal_strlit("border-bottom-width");
    assert("border-bottom-width"@.len() == 19);
    reveal_strlit("border-left-width");
    assert("border-left-width"@.len() == 17);
    reveal_strlit("top");
    assert("top"@.len() == 3);
    reveal_strlit("right");
    assert("right"@.len() == 5);
    reveal_strlit("bottom");
    assert("bottom"@.len() == 6);
    reveal_strlit("left");
    assert("left"@.len() == 4);
    reveal_strlit("border-top-color");
    assert("border-top-color"@.len() == 16);
    reveal_strlit("border-right-color");
    assert("border-right-color"@.len() == 18);
    reveal_strlit("border-bottom-color");
    assert("border-bottom-color"@.len() == 19);
    reveal_strlit("border-left-color");
    assert("border-left-color"@.len() == 17);
    reveal_strlit("border-top-left-radius");
    assert("border-top-left-radius"@.len() == 22);
    reveal_strlit("border-top-right-radius");
    assert("border-top-right-radius"@.len() == 23);
    reveal_strlit("border-bottom-left-radius");
    assert("border-bottom-left-radius"@.len() == 25);
    reveal_strlit("border-bottom-right-radius");
    assert("border-bottom-right-radius"@.len() == 26);
    assert("max-height"@[2] == 'x');
    assert("margin-top"@[2] == 'r');
    assert("aspect-ratio"@[0] == 'a');
    assert("margin-right"@[0] == 'm');
    assert("padding-left"@[0] == 'p');
    assert("align-items"@[0] == 'a');
    assert("margin-left"@[0] == 'm');
    assert("padding-top"@[0] == 'p');
    assert("justify-items"@[0] == 'j');
    assert("margin-bottom"@[0] == 'm');
    assert("padding-right"@[0] == 'p');
    assert("align-self"@[0] == 'a');
    assert("margin-top"@[0] == 'm');
    assert("justify-self"@[0] == 'j');
    assert("align-content"@[0] == 'a');
    assert(sets_its_own_side(spec_css_property_bindings()[16]));
    assert(sets_its_own_side(spec_css_property_bindings()[17]));
    assert(sets_its_own_side(spec_css_property_bindings()[18]));
    assert(sets_its_own_side(spec_css_property_bindings()[19]));
    assert(sets_its_own_side(spec_css_property_bindings()[20]));
    assert(sets_its_own_side(spec_css_property_bindings()[21]));
    assert(sets_its_own_side(spec_css_property_bindings()[22]));
    assert(sets_its_own_side(spec_css_property_bindings()[23]));
    assert(sets_its_own_side(spec_css_property_bindings()[24]));
    assert(sets_its_own_side(spec_css_property_bindings()[25]));
    assert(sets_its_own_side(spec_css_property_bindings()[26]));
    assert(sets_its_own_side(spec_css_property_bindings()[27]));
    assert(sets_its_own_side(spec_css_property_bindings()[28]));
    assert(sets_its_own_side(spec_css_property_bindings()[29]));
    assert(sets_its_own_side(spec_css_property_bindings()[30]));
    assert(sets_its_own_side(spec_css_property_bindings()[31]));
    assert forall|i: int| 16 <= i < 32 implies sets_its_own_side(
        #[trigger] spec_css_property_bindings()[i],
    ) by {
        assert(i == 16 || i == 17 || i == 18 || i == 19 || i == 20 || i == 21 || i == 22 || i == 23 || i == 24 || i == 25 || i == 26 || i == 27 || i == 28 || i == 29 || i == 30 || i == 31);
    }
}

/// The bindings of rows 32 to 47 set their own side.
proof fn lemma_sides_in_rows_2()
    ensures
        forall|i: int|
            32 <= i < 48 ==> sets_its_own_side(#[trigger] spec_css_property_bindings()[i]),
{
    reveal_strlit("padding-bottom");
    assert("padding-bottom"@.len() == 14);
    reveal_strlit("padding-left");
    assert("padding-left"@.len() == 12);
    reveal_strlit("border-left-width");
    assert("border-left-width"@.len() == 17);
    reveal_strlit("border-right-width");
    assert("border-right-width"@.len() == 18);
    reveal_strlit("border-top-width");
    assert("border-top-width"@.len() == 16);
    reveal_strlit("border-bottom-width");
    assert("border-bottom-width"@.len() == 19);
    reveal_strlit("flex-direction");
    assert("flex-direction"@.len() == 14);
    reveal_strlit("flex-wrap");
    assert("flex-wrap"@.len() == 9);
    reveal_strlit("flex-grow");
    assert("flex-grow"@.len() == 9);
    reveal_strlit("flex-shrink");
    assert("flex-shrink"@.len() == 11);
    reveal_strlit("flex-basis");
    assert("flex-basis"@.len() == 10);
    reveal_strlit("row-gap");
    assert("row-gap"@.len() == 7);
    reveal_strlit("column-gap");
    assert("column-gap"@.len() == 10);
    reveal_strlit("grid-auto-flow");
    assert("grid-auto-flow"@.len() == 14);
    reveal_strlit("grid-template-rows");
    assert("grid-template-rows"@.len() == 18);
    reveal_strlit("grid-template-columns");
    assert("grid-template-columns"@.len() == 21);
    reveal_strlit("margin-top");
    assert("margin-top"@.len() == 10);
    reveal_strlit("margin-right");
    assert("margin-right"@.len() == 12);
    reveal_strlit("margin-bottom");
    assert("margin-bottom"@.len() == 13);
    reveal_strlit("margin-left");
    assert("margin-left"@.len() == 11);
    reveal_strlit("padding-top");
    assert("padding-top"@.len() == 11);
    reveal_strlit("padding-right");
    assert("padding-right"@.len() == 13);
    reveal_strlit("top");
    assert("top"@.len() == 3);
    reveal_strlit("right");
    assert("right"@.len() == 5);
    reveal_strlit("bottom");
    assert("bottom"@.len() == 6);
    reveal_strlit("left");
    assert("left"@.len() == 4);
    reveal_strlit("border-top-color");
    assert("border-top-color"@.len() == 16);
    reveal_strlit("border-right-color");
    assert("border-right-color"@.len() == 18);
    reveal_strlit("border-bottom-color");
    assert("border-bottom-color"@.len() == 19);
    reveal_strlit("border-left-color");
    assert("border-left-color"@.len() == 17);
    reveal_strlit("border-top-left-radius");
    assert("border-top-left-radius"@.len() == 22);
    reveal_strlit("border-top-right-radius");
    assert("border-top-right-radius"@.len() == 23);
    reveal_strlit("border-bottom-left-radius");
    assert("border-bottom-left-radius"@.len() == 25);
    reveal_strlit("border-bottom-right-radius");
    assert("border-bottom-right-radius"@.len() == 26);
    assert("padding-left"@[0] == 'p');
    assert("margin-right"@[0] == 'm');
    assert("border-left-width"@[12] == 'w');
    assert("border-left-color"@[12] == 'c');
    assert("border-right-width"@[13] == 'w');
    assert("border-right-color"@[13] == 'c');
    assert("border-top-width"@[11] == 'w');
    assert("border-top-color"@[11] == 'c');
    assert("border-bottom-width"@[14] == 'w');
    assert("border-bottom-color"@[14] == 'c');
    assert("flex-direction"@[0] == 'f');
    assert("padding-bottom"@[0] == 'p');
    assert("flex-shrink"@[0] == 'f');
    assert("margin-left"@[0] == 'm');
    assert("padding-top"@[0] == 'p');
    assert("flex-basis"@[0] == 'f');
    assert("margin-top"@[0] == 'm');
    assert("column-gap"@[0] == 'c');
    assert("grid-auto-flow"@[0] == 'g');
    assert("grid-template-rows"@[0] == 'g');
    assert("border-right-width"@[0] == 'b');
    assert("border-right-color"@[0] == 'b');
    assert(sets_its_own_side(spec_css_property_bindings()[32]));
    assert(sets_its_own_side(spec_css_property_bindings()[33]));
    assert(sets_its_own_side(spec_css_property_bindings()[34]));
    assert(sets_its_own_side(spec_css_property_bindings()[35]));
    assert(sets_its_own_side(spec_css_property_bindings()[36]));
    assert(sets_its_own_side(spec_css_property_bindings()[37]));
    assert(sets_its_own_side(spec_css_property_bindings()[38]));
    assert(sets_its_own_side(spec_css_property_bindings()[39]));
    assert(sets_its_own_side(spec_css_property_bindings()[40]));
    assert(sets_its_own_side(spec_css_property_bindings()[41]));
    assert(sets_its_own_side(spec_css_property_bindings()[42]));
    assert(sets_its_own_side(spec_css_property_bindings()[43]));
    assert(sets_its_own_side(spec_css_property_bindings()[44]));
    assert(sets_its_own_side(spec_css_property_bindings()[45]));
    assert(sets_its_own_side(spec_css_property_bindings()[46]));
    assert(sets_its_own_side(spec_css_property_bindings()[47]));
    assert forall|i: int| 32 <= i < 48 implies sets_its_own_side(
        #[trigger] spec_css_property_bindings()[i],
    ) by {
        assert(i == 32 || i == 33 || i == 34 || i == 35 || i == 36 || i == 37 || i == 38 || i == 39 || i == 40 || i == 41 || i == 42 || i == 43 || i == 44 || i == 45 || i == 46 || i == 47);
    }
}

/// The bindings of rows 48 to 63 set their own side.
proof fn lemma_sides_in_rows_3()
    ensures
        forall|i: int|
            48 <= i < 64 ==> sets_its_own_side(#[trigger] spec_css_property_bindings()[i]),
{
    reveal_strlit("grid-auto-rows");
    assert("grid-auto-rows"@.len() == 14);
    reveal_strlit("grid-auto-columns");
    assert("grid-auto-columns"@.len() == 17);
    reveal_strlit("grid-row");
    assert("grid-row"@.len() == 8);
    reveal_strlit("grid-column");
    assert("grid-column"@.len() == 11);
    reveal_strlit("border-top-left-radius");
    assert("border-top-left-radius"@.len() == 22);
    reveal_strlit("border-top-right-radius");
    assert("border-top-right-radius"@.len() == 23);
    reveal_strlit("border-bottom-left-radius");
    assert("border-bottom-left-radius"@.len() == 25);
    reveal_strlit("border-bottom-right-radius");
    assert("border-bottom-right-radius"@.len() == 26);
    reveal_strlit("background-color");
    assert("background-color"@.len() == 16);
    reveal_strlit("border-top-color");
    assert("border-top-color"@.len() == 16);
    reveal_strlit("border-right-color");
    assert("border-right-color"@.len() == 18);
    reveal_strlit("border-bottom-color");
    assert("border-bottom-color"@.len() == 19);
    reveal_strlit("border-left-color");
    assert("border-left-color"@.len() == 17);
    reveal_strlit("outline-width");
    assert("outline-width"@.len() == 13);
    reveal_strlit("outline-offset");
    assert("outline-offset"@.len() == 14);
    reveal_strlit("outline-color");
    assert("outline-color"@.len() == 13);
    reveal_strlit("margin-top");
    assert("margin-top"@.len() == 10);
    reveal_strlit("margin-right");
    assert("margin-right"@.len() == 12);
    reveal_strlit("margin-bottom");
    assert("margin-bottom"@.len() == 13);
    reveal_strlit("margin-left");
    assert("margin-left"@.len() == 11);
    reveal_strlit("padding-top");
    assert("padding-top"@.len() == 11);
    reveal_strlit("padding-right");
    assert("padding-right"@.len() == 13);
    reveal_strlit("padding-bottom");
    assert("padding-bottom"@.len() == 14);
    reveal_strlit("padding-left");
    assert("padding-left"@.len() == 12);
    reveal_strlit("border-top-width");
    assert("border-top-width"@.len() == 16);
    reveal_strlit("border-right-width");
    assert("border-right-width"@.len() == 18);
    reveal_strlit("border-bottom-width");
    assert("border-bottom-width"@.len() == 19);
    reveal_strlit("border-left-width");
    assert("border-left-width"@.len() == 17);
    reveal_strlit("top");
    assert("top"@.len() == 3);
    reveal_strlit("right");
    assert("right"@.len() == 5);
    reveal_strlit("bottom");
    assert("bottom"@.len() == 6);
    reveal_strlit("left");
    assert("left"@.len() == 4);
    assert("grid-auto-rows"@[0] == 'g');
    assert("padding-bottom"@[0] == 'p');
    assert("grid-auto-columns"@[0] == 'g');
    assert("border-left-width"@[0] == 'b');
    assert("border-left-color"@[0] == 'b');
    assert("grid-column"@[0] == 'g');
    assert("margin-left"@[0] == 'm');
    assert("padding-top"@[0] == 'p');
    assert("background-color"@[1] == 'a');
    assert("border-top-width"@[1] == 'o');
    assert("border-top-color"@[1] == 'o');
    assert("border-top-color"@[11] == 'c');
    assert("border-top-width"@[11] == 'w');
    assert("border-right-color"@[13] == 'c');
    assert("border-right-width"@[13] == 'w');
    assert("border-bottom-color"@[14] == 'c');
    assert("border-bottom-width"@[14] == 'w');
    assert("border-left-color"@[12] == 'c');
    assert("border-left-width"@[12] == 'w');
    assert("outline-width"@[0] == 'o');
    assert("margin-bottom"@[0] == 'm');
    assert("padding-right"@[0] == 'p');
    assert("outline-offset"@[0] == 'o');
    assert("outline-color"@[0] == 'o');
    assert(sets_its_own_side(spec_css_property_bindings()[48]));
    assert(sets_its_own_side(spec_css_property_bindings()[49]));
    assert(sets_its_own_side(spec_css_property_bindings()[50]));
    assert(sets_its_own_side(spec_css_property_bindings()[51]));
    assert(sets_its_own_side(spec_css_property_bindings()[52]));
    assert(sets_its_own_side(spec_css_property_bindings()[53]));
    assert(sets_its_own_side(spec_css_property_bindings()[54]));
    assert(sets_its_own_side(spec_css_property_bindings()[55]));
    assert(sets_its_own_side(spec_css_property_bindings()[56]));
    assert(sets_its_own_side(spec_css_property_bindings()[57]));
    assert(sets_its_own_side(spec_css_property_bindings()[58]));
    assert(sets_its_own_side(spec_css_property_bindings()[59]));
    assert(sets_its_own_side(spec_css_property_bindings()[60]));
    assert(sets_its_own_side(spec_css_property_bindings()[61]));
    assert(sets_its_own_side(spec_css_property_bindings()[62]));
    assert(sets_its_own_side(spec_css_property_bindings()[63]));
    assert forall|i: int| 48 <= i < 64 implies sets_its_own_side(
        #[trigger] spec_css_property_bindings()[i],
    ) by {
        assert(i == 48 || i == 49 || i == 50 || i == 51 || i == 52 || i == 53 || i == 54 || i == 55 || i == 56 || i == 57 || i == 58 || i == 59 || i == 60 || i == 61 || i == 62 || i == 63);
    }
}

/// The bindings of rows 64 to 79 set their own side.
proof fn lemma_sides_in_rows_4()
    ensures
        forall|i: int|
            64 <= i < 80 ==> sets_its_own_side(#[trigger] spec_css_property_bindings()[i]),
{
    reveal_strlit("box-shadow");
    assert("box-shadow"@.len() == 10);
    reveal_strlit("z-index");
    assert("z-index"@.len() == 7);
    reveal_strlit("translate");
    assert("translate"@.len() == 9);
    reveal_strlit("scale");
    assert("scale"@.len() == 5);
    reveal_strlit("rotate");
    assert("rotate"@.len() == 6);
    reveal_strlit("-bevy-background-gradient");
    assert("-bevy-background-gradient"@.len() == 25);
    reveal_strlit("border-image");
    assert("border-image"@.len() == 12);
    reveal_strlit("-bevy-image");
    assert("-bevy-image"@.len() == 11);
    reveal_strlit("-bevy-image-color");
    assert("-bevy-image-color"@.len() == 17);
    reveal_strlit("-bevy-image-mode");
    assert("-bevy-image-mode"@.len() == 16);
    reveal_strlit("-bevy-image-rect");
    assert("-bevy-image-rect"@.len() == 16);
    reveal_strlit("-bevy-image-box");
    assert("-bevy-image-box"@.len() == 15);
    reveal_strlit("color");
    assert("color"@.len() == 5);
    reveal_strlit("font-family");
    assert("font-family"@.len() == 11);
    reveal_strlit("font-size");
    assert("font-size"@.len() == 9);
    reveal_strlit("font-weight");
    assert("font-weight"@.len() == 11);
    reveal_strlit("margin-top");
    assert("margin-top"@.len() == 10);
    reveal_strlit("margin-right");
    assert("margin-right"@.len() == 12);
    reveal_strlit("margin-bottom");
    assert("margin-bottom"@.len() == 13);
    reveal_strlit("margin-left");
    assert("margin-left"@.len() == 11);
    reveal_strlit("padding-top");
    assert("padding-top"@.len() == 11);
    reveal_strlit("padding-right");
    assert("padding-right"@.len() == 13);
    reveal_strlit("padding-bottom");
    assert("padding-bottom"@.len() == 14);
    reveal_strlit("padding-left");
    assert("padding-left"@.len() == 12);
    reveal_strlit("border-top-width");
    assert("border-top-width"@.len() == 16);
    reveal_strlit("border-right-width");
    assert("border-right-width"@.len() == 18);
    reveal_strlit("border-bottom-width");
    assert("border-bottom-width"@.len() == 19);
    reveal_strlit("border-left-width");
    assert("border-left-width"@.len() == 17);
    reveal_strlit("top");
    assert("top"@.len() == 3);
    reveal_strlit("right");
    assert("right"@.len() == 5);
    reveal_strlit("bottom");
    assert("bottom"@.len() == 6);
    reveal_strlit("left");
    assert("left"@.len() == 4);
    reveal_strlit("border-top-color");
    assert("border-top-color"@.len() == 16);
    reveal_strlit("border-right-color");
    assert("border-right-color"@.len() == 18);
    reveal_strlit("border-bottom-color");
    assert("border-bottom-color"@.len() == 19);
    reveal_strlit("border-left-color");
    assert("border-left-color"@.len() == 17);
    reveal_strlit("border-top-left-radius");
    assert("border-top-left-radius"@.len() == 22);
    reveal_strlit("border-top-right-radius");
    assert("border-top-right-radius"@.len() == 23);
    reveal_strlit("border-bottom-left-radius");
    assert("border-bottom-left-radius"@.len() == 25);
    reveal_strlit("border-bottom-right-radius");
    assert("border-bottom-right-radius"@.len() == 26);
    assert("box-shadow"@[0] == 'b');
    assert("margin-top"@[0] == 'm');
    assert("scale"@[0] == 's');
    assert("right"@[0] == 'r');
    assert("rotate"@[0] == 'r');
    assert("bottom"@[0] == 'b');
    assert("-bevy-background-gradient"@[0] == '-');
    assert("border-bottom-left-radius"@[0] == 'b');
    assert("border-image"@[0] == 'b');
    assert("margin-right"@[0] == 'm');
    assert("padding-left"@[0] == 'p');
    assert("-bevy-image"@[0] == '-');
    assert("margin-left"@[0] == 'm');
    assert("padding-top"@[0] == 'p');
    assert("-bevy-image-color"@[0] == '-');
    assert("border-left-width"@[0] == 'b');
    assert("border-left-color"@[0] == 'b');
    assert("-bevy-image-mode"@[0] == '-');
    assert("border-top-width"@[0] == 'b');
    assert("border-top-color"@[0] == 'b');
    assert("-bevy-image-rect"@[0] == '-');
    assert("color"@[0] == 'c');
    assert("font-family"@[0] == 'f');
    assert("font-weight"@[0] == 'f');
    assert(sets_its_own_side(spec_css_property_bindings()[64]));
    assert(sets_its_own_side(spec_css_property_bindings()[65]));
    assert(sets_its_own_side(spec_css_property_bindings()[66]));
    assert(sets_its_own_side(spec_css_property_bindings()[67]));
    assert(sets_its_own_side(spec_css_property_bindings()[68]));
    assert(sets_its_own_side(spec_css_property_bindings()[69]));
    assert(sets_its_own_side(spec_css_property_bindings()[70]));
    assert(sets_its_own_side(spec_css_property_bindings()[71]));
    assert(sets_its_own_side(spec_css_property_bindings()[72]));
    assert(sets_its_own_side(spec_css_property_bindings()[73]));
    assert(sets_its_own_side(spec_css_property_bindings()[74]));
    assert(sets_its_own_side(spec_css_property_bindings()[75]));
    assert(sets_its_own_side(spec_css_property_bindings()[76]));
    assert(sets_its_own_side(spec_css_property_bindings()[77]));
    assert(sets_its_own_side(spec_css_property_bindings()[78]));
    assert(sets_its_own_side(spec_css_property_bindings()[79]));
    assert forall|i: int| 64 <= i < 80 implies sets_its_own_side(
        #[trigger] spec_css_property_bindings()[i],
    ) by {
        assert(i == 64 || i == 65 || i == 66 || i == 67 || i == 68 || i == 69 || i == 70 || i == 71 || i == 72 || i == 73 || i == 74 || i == 75 || i == 76 || i == 77 || i == 78 || i == 79);
    }
}

/// The bindings of rows 80 to 92 set their own side.
proof fn lemma_sides_in_rows_5()
    ensures
        forall|i: int|
            80 <= i < 93 ==> sets_its_own_side(#[trigger] spec_css_property_bindings()[i]),
{
    reveal_strlit("font-width");
    assert("font-width"@.len() == 10);
    reveal_strlit("font-style");
    assert("font-style"@.len() == 10);
    reveal_strlit("font-feature-settings");
    assert("font-feature-settings"@.len() == 21);
    reveal_strlit("font-variation-settings");
    assert("font-variation-settings"@.len() == 23);
    reveal_strlit("-bevy-font-smooth");
    assert("-bevy-font-smooth"@.len() == 17);
    reveal_strlit("line-height");
    assert("line-height"@.len() == 11);
    reveal_strlit("letter-spacing");
    assert("letter-spacing"@.len() == 14);
    reveal_strlit("text-align");
    assert("text-align"@.len() == 10);
    reveal_strlit("-bevy-line-break");
    assert("-bevy-line-break"@.len() == 16);
    reveal_strlit("text-decoration-line");
    assert("text-decoration-line"@.len() == 20);
    reveal_strlit("text-decoration-color");
    assert("text-decoration-color"@.len() == 21);
    reveal_strlit("content");
    assert("content"@.len() == 7);
    reveal_strlit("text-shadow");
    assert("text-shadow"@.len() == 11);
    reveal_strlit("margin-top");
    assert("margin-top"@.len() == 10);
    reveal_strlit("margin-right");
    assert("margin-right"@.len() == 12);
    reveal_strlit("margin-bottom");
    assert("margin-bottom"@.len() == 13);
    reveal_strlit("margin-left");
    assert("margin-left"@.len() == 11);
    reveal_strlit("padding-top");
    assert("padding-top"@.len() == 11);
    reveal_strlit("padding-right");
    assert("padding-right"@.len() == 13);
    reveal_strlit("padding-bottom");
    assert("padding-bottom"@.len() == 14);
    reveal_strlit("padding-left");
    assert("padding-left"@.len() == 12);
    reveal_strlit("border-top-width");
    assert("border-top-width"@.len() == 16);
    reveal_strlit("border-right-width");
    assert("border-right-width"@.len() == 18);
    reveal_strlit("border-bottom-width");
    assert("border-bottom-width"@.len() == 19);
    reveal_strlit("border-left-width");
    assert("border-left-width"@.len() == 17);
    reveal_strlit("top");
    assert("top"@.len() == 3);
    reveal_strlit("right");
    assert("right"@.len() == 5);
    reveal_strlit("bottom");
    assert("bottom"@.len() == 6);
    reveal_strlit("left");
    assert("left"@.len() == 4);
    reveal_strlit("border-top-color");
    assert("border-top-color"@.len() == 16);
    reveal_strlit("border-right-color");
    assert("border-right-color"@.len() == 18);
    reveal_strlit("border-bottom-color");
    assert("border-bottom-color"@.len() == 19);
    reveal_strlit("border-left-color");
    assert("border-left-color"@.len() == 17);
    reveal_strlit("border-top-left-radius");
    assert("border-top-left-radius"@.len() == 22);
    reveal_strlit("border-top-right-radius");
    assert("border-top-right-radius"@.len() == 23);
    reveal_strlit("border-bottom-left-radius");
    assert("border-bottom-left-radius"@.len() == 25);
    reveal_strlit("border-bottom-right-radius");
    assert("border-bottom-right-radius"@.len() == 26);
    assert("font-width"@[0] == 'f');
    assert("margin-top"@[0] == 'm');
    assert("font-style"@[0] == 'f');
    assert("font-variation-settings"@[0] == 'f');
    assert("border-top-right-radius"@[0] == 'b');
    assert("-bevy-font-smooth"@[0] == '-');
    assert("border-left-width"@[0] == 'b');
    assert("border-left-color"@[0] == 'b');
    assert("line-height"@[0] == 'l');
    assert("margin-left"@[0] == 'm');
    assert("padding-top"@[0] == 'p');
    assert("letter-spacing"@[0] == 'l');
    assert("padding-bottom"@[0] == 'p');
    assert("text-align"@[0] == 't');
    assert("-bevy-line-break"@[0] == '-');
    assert("border-top-width"@[0] == 'b');
    assert("border-top-color"@[0] == 'b');
    assert("text-shadow"@[0] == 't');
    assert(sets_its_own_side(spec_css_property_bindings()[80]));
    assert(sets_its_own_side(spec_css_property_bindings()[81]));
    assert(sets_its_own_side(spec_css_property_bindings()[82]));
    assert(sets_its_own_side(spec_css_property_bindings()[83]));
    assert(sets_its_own_side(spec_css_property_bindings()[84]));
    assert(sets_its_own_side(spec_css_property_bindings()[85]));
    assert(sets_its_own_side(spec_css_property_bindings()[86]));
    assert(sets_its_own_side(spec_css_property_bindings()[87]));
    assert(sets_its_own_side(spec_css_property_bindings()[88]));
    assert(sets_its_own_side(spec_css_property_bindings()[89]));
    assert(sets_its_own_side(spec_css_property_bindings()[90]));
    assert(sets_its_own_side(spec_css_property_bindings()[91]));
    assert(sets_its_own_side(spec_css_property_bindings()[92]));
    assert forall|i: int| 80 <= i < 93 implies sets_its_own_side(
        #[trigger] spec_css_property_bindings()[i],
    ) by {
        assert(i == 80 || i == 81 || i == 82 || i == 83 || i == 84 || i == 85 || i == 86 || i == 87 || i == 88 || i == 89 || i == 90 || i == 91 || i == 92);
    }
}

/// A CSS property of one side or corner of a box sets the field of that same
/// side or corner, and each such property is bound: `margin-top` sets the top
/// margin of the node, never another side, and so on for every side and corner
/// (see [`sets_its_own_side`]). With [`find_css_property`], looking such a name
/// up in [`css_property_bindings`] finds that field.
pub proof fn lemma_side_properties_set_their_own_side()
    ensures
        forall|i: int|
            0 <= i < spec_css_property_bindings().len() ==> sets_its_own_side(
                #[trigger] spec_css_property_bindings()[i],
            ),
        is_bound("margin-top"@),
        is_bound("margin-right"@),
        is_bound("margin-bottom"@),
        is_bound("margin-left"@),
        is_bound("padding-top"@),
        is_bound("padding-right"@),
        is_bound("padding-bottom"@),
        is_bound("padding-left"@),
        is_bound("border-top-width"@),
        is_bound("border-right-width"@),
        is_bound("border-bottom-width"@),
        is_bound("border-left-width"@),
        is_bound("top"@),
        is_bound("right"@),
        is_bound("bottom"@),
        is_bound("left"@),
        is_bound("border-top-color"@),
        is_bound("border-right-color"@),
        is_bound("border-bottom-color"@),
        is_bound("border-left-color"@),
        is_bound("border-top-left-radius"@),
        is_bound("border-top-right-radius"@),
        is_bound("border-bottom-left-radius"@),
        is_bound("border-bottom-right-radius"@),
{
    lemma_sides_in_rows_0();
    lemma_sides_in_rows_1();
    lemma_sides_in_rows_2();
    lemma_sides_in_rows_3();
    lemma_sides_in_rows_4();
    lemma_sides_in_rows_5();
    assert forall|i: int| 0 <= i < spec_css_property_bindings().len() implies sets_its_own_side(
        #[trigger] spec_css_property_bindings()[i],
    ) by {
        assert(0 <= i < 93);
    }
    assert(spec_css_property_bindings()[26].css_name@ == "margin-top"@);
    assert(spec_css_property_bindings()[27].css_name@ == "margin-right"@);
    assert(spec_css_property_bindings()[28].css_name@ == "margin-bottom"@);
    assert(spec_css_property_bindings()[29].css_name@ == "margin-left"@);
    assert(spec_css_property_bindings()[30].css_name@ == "padding-top"@);
    assert(spec_css_property_bindings()[31].css_name@ == "padding-right"@);
    assert(spec_css_property_bindings()[32].css_name@ == "padding-bottom"@);
    assert(spec_css_property_bindings()[33].css_name@ == "padding-left"@);
    assert(spec_css_property_bindings()[36].css_name@ == "border-top-width"@);
    assert(spec_css_property_bindings()[35].css_name@ == "border-right-width"@);
    assert(spec_css_property_bindings()[37].css_name@ == "border-bottom-width"@);
    assert(spec_css_property_bindings()[34].css_name@ == "border-left-width"@);
    assert(spec_css_property_bindings()[10].css_name@ == "top"@);
    assert(spec_css_property_bindings()[9].css_name@ == "right"@);
    assert(spec_css_property_bindings()[11].css_name@ == "bottom"@);
    assert(spec_css_property_bindings()[8].css_name@ == "left"@);
    assert(spec_css_property_bindings()[57].css_name@ == "border-top-color"@);
    assert(spec_css_property_bindings()[58].css_name@ == "border-right-color"@);
    assert(spec_css_property_bindings()[59].css_name@ == "border-bottom-color"@);
    assert(spec_css_property_bindings()[60].css_name@ == "border-left-color"@);
    assert(spec_css_property_bindings()[52].css_name@ == "border-top-left-radius"@);
    assert(spec_css_property_bindings()[53].css_name@ == "border-top-right-radius"@);
    assert(spec_css_property_bindings()[54].css_name@ == "border-bottom-left-radius"@);
    assert(spec_css_property_bindings()[55].css_name@ == "border-bottom-right-radius"@);
}

} // verus!
