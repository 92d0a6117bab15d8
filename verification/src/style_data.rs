use vstd::prelude::*;

verus! {

/// Which pseudo-element an entity stands for.
#[derive(Clone, Copy, Debug, PartialEq, Eq, Structural)]
pub enum PseudoElement {
    /// First child of the element.
    Before,
    /// Last child of the element.
    After,
}

/// Sets the type name of an entity, the name type selectors match against
/// (somewhat like the `localName` property in HTML).
#[derive(Clone, Copy, Debug, PartialEq, Eq)]
pub struct TypeName(pub &'static str);

/// Adds support for both `::before` and `::after` pseudo-elements to an entity.
#[derive(Clone, Copy, Debug, PartialEq, Eq, Structural)]
pub struct PseudoElementsSupport;

/// What kind of children carry the pseudo-elements of an entity.
#[derive(Clone, Copy, Debug, PartialEq, Eq, Structural)]
pub enum PseudoElementHost {
    /// A text entity: each pseudo-element is an empty text span, spawned with
    /// copies of its host's font, line height and color (see
    /// [`pseudo_element_child_components`]).
    TextSpans,
    /// A block entity: each pseudo-element is a hidden node.
    HiddenNodes,
    /// Neither text nor node: pseudo-elements are not supported.
    Unsupported,
}

/// How the pseudo-elements of an entity are carried: as text spans when it has
/// `Text` or `TextSpan`, as hidden nodes when it is a `Node` only, not at all
/// otherwise.
pub fn pseudo_element_host(has_text: bool, has_text_span: bool, has_node: bool) -> (res:
    PseudoElementHost)
    ensures
        res == if has_text || has_text_span {
            PseudoElementHost::TextSpans
        } else if has_node {
            PseudoElementHost::HiddenNodes
        } else {
            PseudoElementHost::Unsupported
        },
{
    if has_text || has_text_span {
        PseudoElementHost::TextSpans
    } else if has_node {
        PseudoElementHost::HiddenNodes
    } else {
        PseudoElementHost::Unsupported
    }
}

/// The pseudo-element children spawned for a host, in order: `::before` then
/// `::after`, or none when pseudo-elements are not supported.
pub fn pseudo_element_children(host: PseudoElementHost) -> (res: Vec<PseudoElement>)
    ensures
        host == PseudoElementHost::Unsupported ==> res@ == Seq::<PseudoElement>::empty(),
        host != PseudoElementHost::Unsupported ==> res@ == seq![
            PseudoElement::Before,
            PseudoElement::After,
        ],
{
    match host {
        PseudoElementHost::Unsupported => Vec::new(),
        _ => {
            let mut res = Vec::new();
            res.push(PseudoElement::Before);
            res.push(PseudoElement::After);
            res
        },
    }
}

/// A component that a pseudo-element child is spawned with.
#[derive(Clone, Copy, Debug, PartialEq, Eq, Structural)]
pub enum PseudoChildComponent {
    /// A default `StyleData`, so that the child can be styled.
    StyleData,
    /// A `TextSpan` with no text.
    EmptyTextSpan,
    /// A copy of the host's `TextFont`, or the default one when the host has none.
    HostTextFont,
    /// A copy of the host's `LineHeight`, or the default one when the host has none.
    HostLineHeight,
    /// A copy of the host's `TextColor`, or the default one when the host has none.
    HostTextColor,
    /// A `Node` whose display is `none`.
    HiddenNode,
}

/// The components each pseudo-element child of a host is spawned with, besides
/// its [`PseudoElement`] and its parent link.
///
/// A text child inherits the font, line height and color of its host, as CSS
/// says a pseudo-element does: it is laid out inside the host's text block, so
/// a rule that sets none of them must not fall back to the defaults.
pub open spec fn spec_pseudo_element_child_components(host: PseudoElementHost) -> Seq<
    PseudoChildComponent,
> {
    match host {
        PseudoElementHost::TextSpans => seq![
            PseudoChildComponent::StyleData,
            PseudoChildComponent::EmptyTextSpan,
            PseudoChildComponent::HostTextFont,
            PseudoChildComponent::HostLineHeight,
            PseudoChildComponent::HostTextColor,
        ],
        PseudoElementHost::HiddenNodes => seq![
            PseudoChildComponent::StyleData,
            PseudoChildComponent::HiddenNode,
        ],
        PseudoElementHost::Unsupported => Seq::empty(),
    }
}

/// The components each pseudo-element child of a host is spawned with: a text
/// child copies the host's font, line height and color.
pub fn pseudo_element_child_components(host: PseudoElementHost) -> (res: Vec<
    PseudoChildComponent,
>)
    ensures
        res@ == spec_pseudo_element_child_components(host),
{
    let mut res: Vec<PseudoChildComponent> = Vec::new();
    match host {
        PseudoElementHost::TextSpans => {
            res.push(PseudoChildComponent::StyleData);
            res.push(PseudoChildComponent::EmptyTextSpan);
            res.push(PseudoChildComponent::HostTextFont);
            res.push(PseudoChildComponent::HostLineHeight);
            res.push(PseudoChildComponent::HostTextColor);
        },
        PseudoElementHost::HiddenNodes => {
            res.push(PseudoChildComponent::StyleData);
            res.push(PseudoChildComponent::HiddenNode);
        },
        PseudoElementHost::Unsupported => {},
    }
    assert(res@ =~= spec_pseudo_element_child_components(host));
    res
}

/// How an entity is styled, `S` being the handle of a style sheet.
/// - [`Styled::Inherited`] (the default) inherits the style sheet of the parent.
/// - [`Styled::StyleSheet`] applies the given style sheet to the entity and all descendants.
/// - [`Styled::Block`] blocks any inherited style sheet for the entity and its descendants.
#[derive(Clone, Debug, PartialEq, Eq)]
pub enum Styled<S> {
    /// The entity inherits the style sheet of its closest styled ancestor.
    Inherited,
    /// The entity takes the provided style sheet.
    StyleSheet(S),
    /// The entity does not inherit any style sheet.
    Block,
}

impl<S> Styled<S> {
    /// Creates a new [`Styled::StyleSheet`] with the given style.
    pub fn new(style: S) -> (res: Self)
        ensures
            res == Styled::StyleSheet(style),
    {
        Styled::StyleSheet(style)
    }
}

impl<S> Default for Styled<S> {
    fn default() -> (res: Self)
        ensures
            res == Styled::<S>::Inherited,
    {
        Styled::Inherited
    }
}

/// Gathers the data selectors match an entity against.
#[derive(Clone, Debug)]
pub struct StyleData {
    is_root: bool,
    id: Option<String>,
    classes: Vec<String>,
    local_name: Option<&'static str>,
    is_pseudo_element: Option<PseudoElement>,
}

impl StyleData {
    /// Whether the entity is a root.
    pub closed spec fn spec_is_root(&self) -> bool {
        self.is_root
    }

    /// The id of the entity, if one is defined.
    pub closed spec fn spec_id(&self) -> Option<Seq<char>> {
        match self.id {
            Some(id) => Some(id@),
            None => None,
        }
    }

    /// The classes of the entity, in order.
    pub closed spec fn spec_classes(&self) -> Seq<Seq<char>> {
        self.classes@.map_values(|c: String| c@)
    }

    /// The type name of the entity, if one is assigned.
    pub closed spec fn spec_type_name(&self) -> Option<Seq<char>> {
        match self.local_name {
            Some(name) => Some(name@),
            None => None,
        }
    }

    /// The pseudo-element the entity stands for, if any.
    pub closed spec fn spec_pseudo_element(&self) -> Option<PseudoElement> {
        self.is_pseudo_element
    }

    /// Style data of an entity with the given root status, id and classes, with
    /// no type name and standing for no pseudo-element.
    pub fn new(is_root: bool, id: Option<String>, classes: Vec<String>) -> (res: Self)
        ensures
            res.spec_is_root() == is_root,
            res.spec_id() == (match id {
                Some(i) => Some(i@),
                None => None::<Seq<char>>,
            }),
            res.spec_classes() == classes@.map_values(|c: String| c@),
            res.spec_type_name() == None::<Seq<char>>,
            res.spec_pseudo_element() == None::<PseudoElement>,
    {
        StyleData { is_root, id, classes, local_name: None, is_pseudo_element: None }
    }

    /// Indicates if this entity is a root. Mainly used to match `:root` selectors.
    pub fn is_root(&self) -> (res: bool)
        ensures
            res == self.spec_is_root(),
    {
        self.is_root
    }

    /// Gets the id of the current entity, if one is defined.
    pub fn get_id(&self) -> (res: Option<&str>)
        ensures
            match res {
                Some(id) => self.spec_id() == Some(id@),
                None => self.spec_id() == None::<Seq<char>>,
            },
    {
        match &self.id {
            Some(id) => Some(id.as_str()),
            None => None,
        }
    }

    /// Returns true if this entity has the specified class.
    pub fn has_class(&self, class: &str) -> (res: bool)
        ensures
            res == self.spec_classes().contains(class@),
    {
        let wanted = class.to_owned();
        let mut i: usize = 0;
        while i < self.classes.len()
            invariant
                i <= self.classes@.len(),
                wanted@ == class@,
                self.spec_classes().len() == self.classes@.len(),
                forall|j: int| 0 <= j < i ==> #[trigger] self.spec_classes()[j] != class@,
            decreases self.classes@.len() - i,
        {
            if self.classes[i] == wanted {
                proof {
                    assert(self.spec_classes()[i as int] == class@);
                    assert(self.spec_classes().contains(class@));
                }
                return true;
            }
            i = i + 1;
        }
        proof {
            if self.spec_classes().contains(class@) {
                let j = choose|j: int|
                    0 <= j < self.spec_classes().len() && self.spec_classes()[j] == class@;
                assert(self.spec_classes()[j] != class@);
            }
        }
        false
    }

    /// Returns all active classes for the current entity.
    pub fn active_classes(&self) -> (res: &[String])
        ensures
            res@.map_values(|c: String| c@) == self.spec_classes(),
    {
        self.classes.as_slice()
    }

    /// Gets the type name of the current entity, if one is assigned.
    pub fn get_type_name(&self) -> (res: Option<&str>)
        ensures
            match res {
                Some(name) => self.spec_type_name() == Some(name@),
                None => self.spec_type_name() == None::<Seq<char>>,
            },
    {
        self.local_name
    }

    /// Returns true if the current entity has the given type name.
    pub fn has_type_name(&self, local_name: &str) -> (res: bool)
        ensures
            res == (self.spec_type_name() == Some(local_name@)),
    {
        match self.local_name {
            Some(name) => {
                let name = name.to_owned();
                let other = local_name.to_owned();
                name == other
            },
            None => false,
        }
    }

    /// The pseudo-element the entity stands for, if any.
    pub fn pseudo_element(&self) -> (res: Option<PseudoElement>)
        ensures
            res == self.spec_pseudo_element(),
    {
        self.is_pseudo_element
    }

    /// Assigns the type name of the entity. An entity gets at most one type
    /// name: assigning a second one is refused by the caller.
    pub fn assign_type_name(&mut self, local_name: &'static str)
        requires
            old(self).spec_type_name() == None::<Seq<char>>,
        ensures
            final(self).spec_type_name() == Some(local_name@),
            final(self).spec_is_root() == old(self).spec_is_root(),
            final(self).spec_id() == old(self).spec_id(),
            final(self).spec_classes() == old(self).spec_classes(),
            final(self).spec_pseudo_element() == old(self).spec_pseudo_element(),
    {
        self.local_name = Some(local_name);
    }

    /// Gives the entity the type name `local_name`, unless it already has one:
    /// then nothing changes and the name it has is returned. A type name, once
    /// set, is never replaced.
    pub fn try_assign_type_name(&mut self, local_name: &'static str) -> (res: Result<
        (),
        &'static str,
    >)
        ensures
            match res {
                Ok(()) => {
                    &&& old(self).spec_type_name() == None::<Seq<char>>
                    &&& final(self).spec_type_name() == Some(local_name@)
                    &&& final(self).spec_is_root() == old(self).spec_is_root()
                    &&& final(self).spec_id() == old(self).spec_id()
                    &&& final(self).spec_classes() == old(self).spec_classes()
                    &&& final(self).spec_pseudo_element() == old(self).spec_pseudo_element()
                },
                Err(existing) => {
                    &&& old(self).spec_type_name() == Some(existing@)
                    &&& *final(self) == *old(self)
                },
            },
    {
        match self.local_name {
            Some(existing) => Err(existing),
            None => {
                self.assign_type_name(local_name);
                Ok(())
            },
        }
    }

    /// Records that the entity stands for the given pseudo-element.
    pub fn mark_pseudo_element(&mut self, pseudo_element: PseudoElement)
        ensures
            final(self).spec_pseudo_element() == Some(pseudo_element),
            final(self).spec_is_root() == old(self).spec_is_root(),
            final(self).spec_id() == old(self).spec_id(),
            final(self).spec_classes() == old(self).spec_classes(),
            final(self).spec_type_name() == old(self).spec_type_name(),
    {
        self.is_pseudo_element = Some(pseudo_element);
    }
}

} // verus!
