//! The rule: which controls lack an accessible label.
use vstd::prelude::*;
use crate::config::{ConfigModel, ConfigValue, ControlHasAssociatedLabelConfig, configured_model, default_model};
use crate::jsx::{ElementFacts, JsxAttributeItem, JsxAttributeValue, JsxChild, JsxElement, Span};
use crate::text::{contains_text, is_blank, is_blank_text, same_text};

verus! {

/// Whether `name` names an attribute that can carry a label.
pub open spec fn is_labelling_name(m: ConfigModel, name: Seq<char>) -> bool {
    ||| name == "alt"@
    ||| name == "aria-label"@
    ||| name == "aria-labelledby"@
    ||| m.label_attributes.contains(name)
}

/// Whether an attribute gives a label: a spread may, and a labelling attribute does
/// when it has a value that is not a blank string.
pub open spec fn attribute_labels(m: ConfigModel, item: JsxAttributeItem) -> bool {
    match item {
        JsxAttributeItem::SpreadAttribute => true,
        JsxAttributeItem::Attribute(a) => is_labelling_name(m, a.name@) && match a.value {
            None => false,
            Some(JsxAttributeValue::StringLiteral(s)) => !is_blank_text(s@),
            Some(_) => true,
        },
    }
}

/// Whether some attribute in `attrs` gives a label.
pub open spec fn has_labelling_attribute(m: ConfigModel, attrs: Seq<JsxAttributeItem>) -> bool {
    exists|i: int| 0 <= i < attrs.len() && #[trigger] attribute_labels(m, attrs[i])
}

/// Whether `c`, found at `depth` below the control, may give it a label.
pub open spec fn child_labels(m: ConfigModel, c: JsxChild, depth: int) -> bool
    decreases c,
{
    if depth > m.depth {
        false
    } else {
        match c {
            JsxChild::ExpressionContainer => true,
            JsxChild::Text(t) => !is_blank_text(t@),
            JsxChild::Element(e) => {
                ||| has_labelling_attribute(m, e.attributes@)
                ||| (e.children@.len() == 0 && e.is_component_name
                    && !m.control_components.contains(e.element_type@))
                ||| children_label(m, e.children@, depth + 1)
            },
            JsxChild::Fragment(cs) => children_label(m, cs@, depth + 1),
            JsxChild::Spread => false,
        }
    }
}

/// Whether one of `cs`, found at `depth`, may give a label.
pub open spec fn children_label(m: ConfigModel, cs: Seq<JsxChild>, depth: int) -> bool
    decreases cs,
{
    if cs.len() == 0 {
        false
    } else {
        children_label(m, cs.drop_last(), depth) || child_labels(m, cs.last(), depth)
    }
}

/// Whether `e` may have an accessible label: from its own attributes or from
/// its descendants down to the configured depth.
pub open spec fn may_be_labelled(m: ConfigModel, e: JsxElement) -> bool {
    has_labelling_attribute(m, e.attributes@) || children_label(m, e.children@, 1)
}

/// Whether the rule leaves `e` alone: `link`, an ignored element type,
/// an ignored role, or hidden from screen readers.
pub open spec fn is_ignored(m: ConfigModel, e: JsxElement, facts: ElementFacts) -> bool {
    ||| e.element_type@ == "link"@
    ||| m.ignore_elements.contains(e.element_type@)
    ||| (facts.role matches Some(r) && m.ignore_roles.contains(r@))
    ||| facts.is_hidden_from_screen_reader
}

/// Whether `e` is a control: an interactive element, an HTML element with an
/// interactive role, or a configured control component.
pub open spec fn is_control(m: ConfigModel, e: JsxElement, facts: ElementFacts) -> bool {
    ||| facts.is_interactive_element
    ||| (facts.is_dom_element && facts.role is Some && facts.is_interactive_role)
    ||| m.control_components.contains(e.element_type@)
}

/// Whether the rule reports `e`: a control, not ignored, that has no label.
pub open spec fn reports(m: ConfigModel, e: JsxElement, facts: ElementFacts) -> bool {
    &&& !is_ignored(m, e, facts)
    &&& is_control(m, e, facts)
    &&& !may_be_labelled(m, e)
}

pub open spec fn diagnostic_message() -> Seq<char> {
    "A control must be associated with a text label."@
}

pub open spec fn diagnostic_help() -> Seq<char> {
    "Add a text label to the control element. This can be done by adding text content, an `aria-label` attribute, or an `aria-labelledby` attribute."@
}

/// How grave a diagnostic is.
#[derive(Debug, Clone, Copy, PartialEq, Eq, Structural)]
pub enum Severity {
    Error,
    Warning,
    Advice,
}

/// A diagnostic: its severity, message and help text, and the one span it
/// points at (a label without text of its own).
#[derive(Debug)]
pub struct Diagnostic {
    pub severity: Severity,
    pub message: String,
    pub help: String,
    pub span: Span,
}

/// The warning for an unlabelled control whose opening tag spans `span`.
pub fn control_has_associated_label_diagnostic(span: Span) -> (d: Diagnostic)
    ensures
        d.severity == Severity::Warning,
        d.message@ == diagnostic_message(),
        d.help@ == diagnostic_help(),
        d.span == span,
{
    Diagnostic {
        severity: Severity::Warning,
        message: String::from_str("A control must be associated with a text label."),
        help: String::from_str(
            "Add a text label to the control element. This can be done by adding text content, an `aria-label` attribute, or an `aria-labelledby` attribute.",
        ),
        span,
    }
}

/// The rule, with its options.
#[derive(Debug)]
pub struct ControlHasAssociatedLabel(Box<ControlHasAssociatedLabelConfig>);

impl View for ControlHasAssociatedLabel {
    type V = ConfigModel;

    closed spec fn view(&self) -> ConfigModel {
        self.0@
    }
}

impl core::ops::Deref for ControlHasAssociatedLabel {
    type Target = ControlHasAssociatedLabelConfig;

    /// The rule's options.
    fn deref(&self) -> (r: &ControlHasAssociatedLabelConfig)
        ensures
            r@ == self@,
    {
        &self.0
    }
}

impl Default for ControlHasAssociatedLabel {
    fn default() -> (r: Self)
        ensures
            r@ == default_model(),
    {
        ControlHasAssociatedLabel(Box::new(ControlHasAssociatedLabelConfig::default()))
    }
}

impl Clone for ControlHasAssociatedLabel {
    fn clone(&self) -> (r: Self)
        ensures
            r@ == self@,
    {
        ControlHasAssociatedLabel(Box::new(ControlHasAssociatedLabelConfig::clone(&self.0)))
    }
}

impl ControlHasAssociatedLabel {
    /// The rule with its options.
    pub fn new(config: ControlHasAssociatedLabelConfig) -> (r: Self)
        ensures
            r@ == config@,
    {
        ControlHasAssociatedLabel(Box::new(config))
    }

    /// The rule configured by `value`, the rule's entry in a linter configuration
    /// (an array whose first element holds the options).
    pub fn from_configuration(value: ConfigValue) -> (r: Self)
        ensures
            r@ == configured_model(value),
    {
        ControlHasAssociatedLabel(Box::new(ControlHasAssociatedLabelConfig::from_value(&value)))
    }

    /// Whether some attribute in `attributes` gives a label.
    pub fn has_labelling_prop(&self, attributes: &[JsxAttributeItem]) -> (r: bool)
        ensures
            r == has_labelling_attribute(self@, attributes@),
    {
        let label_attributes = self.0.label_attributes();
        let mut i: usize = 0;
        while i < attributes.len()
            invariant
                i <= attributes@.len(),
                crate::text::texts(label_attributes@) == self@.label_attributes,
                forall|j: int| 0 <= j < i ==> !#[trigger] attribute_labels(self@, attributes@[j]),
            decreases attributes@.len() - i,
        {
            let labels = match &attributes[i] {
                JsxAttributeItem::SpreadAttribute => true,
                JsxAttributeItem::Attribute(attr) => {
                    let name = attr.name.as_str();
                    let is_labelling = same_text(name, "alt") || same_text(name, "aria-label")
                        || same_text(name, "aria-labelledby") || contains_text(
                        label_attributes,
                        name,
                    );
                    if !is_labelling {
                        false
                    } else {
                        match &attr.value {
                            None => false,
                            Some(JsxAttributeValue::StringLiteral(s)) => !is_blank(s.as_str()),
                            Some(_) => true,
                        }
                    }
                },
            };
            if labels {
                assert(attribute_labels(self@, attributes@[i as int]));
                return true;
            }
            i = i + 1;
        }
        false
    }

    /// Whether `node`, found at `depth` below the control, may give it a label.
    pub fn check_child_for_label(&self, node: &JsxChild, depth: u8) -> (r: bool)
        ensures
            r == child_labels(self@, *node, depth as int),
        decreases node,
    {
        let max_depth = self.0.depth();
        if depth > max_depth {
            return false;
        }
        match node {
            JsxChild::ExpressionContainer => true,
            JsxChild::Text(text) => !is_blank(text.as_str()),
            JsxChild::Element(element) => {
                if self.has_labelling_prop(element.attributes.as_slice()) {
                    return true;
                }
                if element.children.len() == 0 {
                    if element.is_component_name && !contains_text(
                        self.0.control_components(),
                        element.element_type.as_str(),
                    ) {
                        return true;
                    }
                }
                self.check_children_for_label(&element.children, depth + 1)
            },
            JsxChild::Fragment(children) => self.check_children_for_label(children, depth + 1),
            JsxChild::Spread => false,
        }
    }

    /// Whether one of `children`, found at `depth`, may give a label.
    fn check_children_for_label(&self, children: &Vec<JsxChild>, depth: u8) -> (r: bool)
        ensures
            r == children_label(self@, children@, depth as int),
        decreases children,
    {
        let mut i: usize = 0;
        while i < children.len()
            invariant
                i <= children@.len(),
                !children_label(self@, children@.take(i as int), depth as int),
            decreases children@.len() - i,
        {
            assert(children@.take(i + 1).drop_last() =~= children@.take(i as int));
            if self.check_child_for_label(&children[i], depth) {
                proof {
                    crate::laws::lemma_children_label_prefix(self@, children@, i + 1, depth as int);
                }
                return true;
            }
            i = i + 1;
        }
        assert(children@.take(children@.len() as int) =~= children@);
        false
    }

    /// Whether `element` may have an accessible label.
    pub fn may_have_accessible_label(&self, element: &JsxElement) -> (r: bool)
        ensures
            r == may_be_labelled(self@, *element),
    {
        if self.has_labelling_prop(element.attributes.as_slice()) {
            return true;
        }
        self.check_children_for_label(&element.children, 1)
    }

    /// Checks `element`: the warning to report when it is a control without a label.
    pub fn run(&self, element: &JsxElement, facts: &ElementFacts) -> (r: Option<Diagnostic>)
        ensures
            r is Some <==> reports(self@, *element, *facts),
            r matches Some(d) ==> d.severity == Severity::Warning && d.message@
                == diagnostic_message() && d.help@ == diagnostic_help() && d.span == element.span,
    {
        let element_type = element.element_type.as_str();
        if same_text(element_type, "link") || contains_text(self.0.ignore_elements(), element_type) {
            return None;
        }
        match &facts.role {
            Some(role) => {
                if contains_text(self.0.ignore_roles(), role.as_str()) {
                    return None;
                }
            },
            None => {},
        }
        if facts.is_hidden_from_screen_reader {
            return None;
        }
        let is_dom_element = facts.is_dom_element;
        let is_interactive_el = facts.is_interactive_element;
        let is_interactive_role_el = facts.role.is_some() && facts.is_interactive_role;
        let is_control_component = contains_text(self.0.control_components(), element_type);
        if !(is_interactive_el || is_dom_element && is_interactive_role_el || is_control_component) {
            return None;
        }
        if !self.may_have_accessible_label(element) {
            Some(control_has_associated_label_diagnostic(element.span))
        } else {
            None
        }
    }
}

} // verus!
