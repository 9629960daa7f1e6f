//! The parts of a JSX tree that the rule reads, held as plain values.
use vstd::prelude::*;

verus! {

/// A byte range in the source text.
#[derive(Debug, Clone, Copy, PartialEq, Eq, Structural)]
pub struct Span {
    pub start: u32,
    pub end: u32,
}

/// The value given to a JSX attribute.
#[derive(Debug, Clone)]
pub enum JsxAttributeValue {
    /// `foo="bar"`: the literal text between the quotes.
    StringLiteral(String),
    /// `foo={expr}`
    ExpressionContainer,
    /// `foo=<Element />`
    Element,
    /// `foo=<></>`
    Fragment,
}

/// A `name` or `name=value` attribute; `name` is the attribute's full name
/// (`ns:name` for a namespaced one).
#[derive(Debug, Clone)]
pub struct JsxAttribute {
    pub name: String,
    pub value: Option<JsxAttributeValue>,
}

/// An item of an opening tag's attribute list.
#[derive(Debug, Clone)]
pub enum JsxAttributeItem {
    Attribute(JsxAttribute),
    /// `{...props}`
    SpreadAttribute,
}

/// A JSX element: its element type (the tag name as the linter resolves it,
/// component mappings applied), whether that name is a React component name,
/// its attributes, its children and the span of its opening tag.
#[derive(Debug)]
pub struct JsxElement {
    pub element_type: String,
    pub is_component_name: bool,
    pub attributes: Vec<JsxAttributeItem>,
    pub children: Vec<JsxChild>,
    pub span: Span,
}

/// A child of a JSX element or fragment.
#[derive(Debug)]
pub enum JsxChild {
    /// Literal text between tags.
    Text(String),
    Element(JsxElement),
    /// `<>...</>`, with its children.
    Fragment(Vec<JsxChild>),
    /// `{expr}`
    ExpressionContainer,
    /// `{...expr}`
    Spread,
}

/// What the linter knows of the element under inspection beyond its tree.
#[derive(Debug, Clone)]
pub struct ElementFacts {
    /// The string value of the element's `role` attribute, if it has one.
    pub role: Option<String>,
    /// Whether the element is hidden from screen readers.
    pub is_hidden_from_screen_reader: bool,
    /// Whether the element type is an HTML tag.
    pub is_dom_element: bool,
    /// Whether the element is an interactive element.
    pub is_interactive_element: bool,
    /// Whether `role` (when present) is an interactive role.
    pub is_interactive_role: bool,
}

} // verus!
