//! Unit tests of the library's functions on concrete values.

use control_has_associated_label::config::{
    ConfigEntry, ConfigValue, ControlHasAssociatedLabelConfig, JsonNumber, DEFAULT_DEPTH,
    MAX_DEPTH,
};
use control_has_associated_label::jsx::{
    ElementFacts, JsxAttribute, JsxAttributeItem, JsxAttributeValue, JsxChild, JsxElement, Span,
};
use control_has_associated_label::rule::{
    control_has_associated_label_diagnostic, ControlHasAssociatedLabel, Severity,
};
use control_has_associated_label::text::{contains_text, is_blank, is_white_space_char, same_text};

fn s(x: &str) -> String {
    x.to_string()
}

fn obj(entries: Vec<(&str, ConfigValue)>) -> ConfigValue {
    ConfigValue::Object(entries.into_iter().map(|(k, v)| ConfigEntry { key: s(k), value: v }).collect())
}

fn strs(xs: &[&str]) -> ConfigValue {
    ConfigValue::Array(xs.iter().map(|x| ConfigValue::String(s(x))).collect())
}

fn rule_with(options: ConfigValue) -> ControlHasAssociatedLabel {
    ControlHasAssociatedLabel::from_configuration(ConfigValue::Array(vec![options]))
}

fn attr(name: &str, value: Option<JsxAttributeValue>) -> JsxAttributeItem {
    JsxAttributeItem::Attribute(JsxAttribute { name: s(name), value })
}

fn lit(v: &str) -> Option<JsxAttributeValue> {
    Some(JsxAttributeValue::StringLiteral(s(v)))
}

fn el(name: &str, attributes: Vec<JsxAttributeItem>, children: Vec<JsxChild>) -> JsxElement {
    JsxElement {
        element_type: s(name),
        is_component_name: name.chars().next().is_some_and(|c| c.is_ascii_uppercase()),
        attributes,
        children,
        span: Span { start: 3, end: 11 },
    }
}

fn text(t: &str) -> JsxChild {
    JsxChild::Text(s(t))
}

/// `depth` nested spans around `inner`.
fn nested(depth: usize, inner: JsxChild) -> JsxChild {
    let mut c = inner;
    for _ in 0..depth {
        c = JsxChild::Element(el("span", vec![], vec![c]));
    }
    c
}

fn control() -> ElementFacts {
    ElementFacts {
        role: None,
        is_hidden_from_screen_reader: false,
        is_dom_element: true,
        is_interactive_element: true,
        is_interactive_role: false,
    }
}

fn plain() -> ElementFacts {
    ElementFacts { is_interactive_element: false, ..control() }
}

fn strings(v: &[String]) -> Vec<&str> {
    v.iter().map(|x| x.as_str()).collect()
}

#[test]
fn blank_matches_std_trim_for_every_char() {
    for n in 0..0x110000u32 {
        if let Some(c) = char::from_u32(n) {
            let t = c.to_string();
            assert_eq!(is_blank(&t), t.trim().is_empty(), "U+{n:04X}");
        }
    }
    assert!(is_blank(""));
    assert!(is_blank(" \t\n\r\u{a0}\u{3000}"));
    assert!(!is_blank("  Save "));
}

#[test]
fn text_equality_and_membership() {
    assert!(same_text("aria-label", "aria-label"));
    assert!(!same_text("aria-label", "aria-labe"));
    assert!(!same_text("é", "e"));
    assert!(same_text("", ""));
    assert!(!same_text("ab", "ba"));
    let v = vec![s("grid"), s("row")];
    assert!(contains_text(&v, "row"));
    assert!(!contains_text(&v, "ro"));
    assert!(!contains_text(&vec![], "row"));
}

#[test]
fn default_options() {
    let c = ControlHasAssociatedLabelConfig::default();
    assert_eq!(c.depth(), DEFAULT_DEPTH);
    assert_eq!(c.depth(), 2);
    assert!(c.label_attributes().is_empty());
    assert!(c.control_components().is_empty());
    assert_eq!(
        strings(c.ignore_elements()),
        ["audio", "canvas", "embed", "input", "textarea", "tr", "video"]
    );
    assert_eq!(
        strings(c.ignore_roles()),
        ["grid", "listbox", "menu", "menubar", "radiogroup", "row", "tablist", "toolbar", "tree", "treegrid"]
    );
    let r = ControlHasAssociatedLabel::default();
    assert_eq!(r.depth(), 2);
}

#[test]
fn configuration_without_options_keeps_defaults() {
    for v in [
        ConfigValue::Null,
        ConfigValue::Array(vec![]),
        obj(vec![("depth", ConfigValue::Number(JsonNumber::PosInt(7)))]),
    ] {
        let r = ControlHasAssociatedLabel::from_configuration(v);
        assert_eq!(r.depth(), 2);
        assert_eq!(r.ignore_elements().len(), 7);
        assert_eq!(r.ignore_roles().len(), 10);
    }
    // options that are not an object read as empty
    let r = rule_with(strs(&["depth"]));
    assert_eq!(r.depth(), 2);
    assert_eq!(r.ignore_roles().len(), 10);
}

#[test]
fn configured_depth() {
    let depth = |n: ConfigValue| rule_with(obj(vec![("depth", n)])).depth();
    assert_eq!(depth(ConfigValue::Number(JsonNumber::PosInt(3))), 3);
    assert_eq!(depth(ConfigValue::Number(JsonNumber::PosInt(0))), 0);
    assert_eq!(depth(ConfigValue::Number(JsonNumber::PosInt(25))), 25);
    assert_eq!(depth(ConfigValue::Number(JsonNumber::PosInt(26))), MAX_DEPTH);
    assert_eq!(depth(ConfigValue::Number(JsonNumber::PosInt(u64::MAX))), 25);
    assert_eq!(depth(ConfigValue::Number(JsonNumber::NegInt(-1))), 2);
    assert_eq!(depth(ConfigValue::Number(JsonNumber::Float)), 2);
    assert_eq!(depth(ConfigValue::String(s("3"))), 2);
}

#[test]
fn configured_lists() {
    let r = rule_with(obj(vec![
        (
            "labelAttributes",
            ConfigValue::Array(vec![
                ConfigValue::String(s("label")),
                ConfigValue::Number(JsonNumber::PosInt(1)),
                ConfigValue::Null,
                ConfigValue::String(s("title")),
            ]),
        ),
        ("controlComponents", strs(&["Control"])),
        ("ignoreElements", strs(&[])),
        ("ignoreRoles", ConfigValue::String(s("grid"))),
    ]));
    assert_eq!(strings(r.label_attributes()), ["label", "title"]);
    assert_eq!(strings(r.control_components()), ["Control"]);
    assert!(r.ignore_elements().is_empty());
    // not an array: the default stays
    assert_eq!(r.ignore_roles().len(), 10);
}

#[test]
fn config_value_accessors() {
    let v = obj(vec![
        ("a", ConfigValue::Bool(true)),
        ("b", ConfigValue::Number(JsonNumber::PosInt(4))),
        ("a", ConfigValue::Null),
    ]);
    assert!(matches!(v.get("a"), Some(ConfigValue::Bool(true))));
    assert_eq!(v.get("b").and_then(|x| x.as_u64()), Some(4));
    assert!(v.get("c").is_none());
    assert!(v.at(0).is_none());
    let a = strs(&["x", "y"]);
    assert!(matches!(a.at(1), Some(ConfigValue::String(t)) if t == "y"));
    assert!(a.at(2).is_none());
    assert!(a.get("x").is_none());
    assert_eq!(a.as_array().map(|v| v.len()), Some(2));
    assert!(ConfigValue::Number(JsonNumber::NegInt(-4)).as_u64().is_none());
}

#[test]
fn config_new_caps_depth_and_clone_keeps_options() {
    let c = ControlHasAssociatedLabelConfig::new(200, vec![s("label")], vec![], vec![s("x")], vec![]);
    assert_eq!(c.depth(), 25);
    let d = c.clone();
    assert_eq!(d.depth(), 25);
    assert_eq!(strings(d.label_attributes()), ["label"]);
    assert_eq!(strings(d.ignore_elements()), ["x"]);
    let r = ControlHasAssociatedLabel::new(ControlHasAssociatedLabelConfig::new(4, vec![], vec![], vec![], vec![]));
    assert_eq!(r.clone().depth(), 4);
}

#[test]
fn labelling_props() {
    let r = ControlHasAssociatedLabel::default();
    assert!(r.has_labelling_prop(&[JsxAttributeItem::SpreadAttribute]));
    assert!(r.has_labelling_prop(&[attr("alt", lit("Save"))]));
    assert!(r.has_labelling_prop(&[attr("aria-label", lit(" x "))]));
    assert!(r.has_labelling_prop(&[attr("aria-labelledby", lit("id"))]));
    assert!(r.has_labelling_prop(&[attr("aria-label", Some(JsxAttributeValue::ExpressionContainer))]));
    assert!(r.has_labelling_prop(&[attr("aria-label", Some(JsxAttributeValue::Element))]));
    assert!(!r.has_labelling_prop(&[attr("aria-label", lit("  \t"))]));
    assert!(!r.has_labelling_prop(&[attr("aria-label", lit(""))]));
    assert!(!r.has_labelling_prop(&[attr("aria-label", None)]));
    assert!(!r.has_labelling_prop(&[attr("title", lit("Save"))]));
    assert!(!r.has_labelling_prop(&[attr("label", lit("Save"))]));
    assert!(!r.has_labelling_prop(&[]));
    assert!(r.has_labelling_prop(&[attr("title", lit("Save")), attr("alt", lit("Save"))]));
    let r = rule_with(obj(vec![("labelAttributes", strs(&["label"]))]));
    assert!(r.has_labelling_prop(&[attr("label", lit("Save"))]));
    assert!(r.has_labelling_prop(&[attr("aria-label", lit("Save"))]));
}

#[test]
fn children_and_depth() {
    let r = ControlHasAssociatedLabel::default();
    assert!(r.check_child_for_label(&JsxChild::ExpressionContainer, 1));
    assert!(r.check_child_for_label(&text("Save"), 2));
    assert!(!r.check_child_for_label(&text("Save"), 3));
    assert!(!r.check_child_for_label(&text("  \n "), 1));
    assert!(!r.check_child_for_label(&JsxChild::Spread, 1));
    assert!(r.check_child_for_label(&nested(1, text("Save")), 1));
    assert!(!r.check_child_for_label(&nested(2, text("Save")), 1));
    assert!(r.check_child_for_label(&JsxChild::Fragment(vec![text("Save")]), 1));
    assert!(!r.check_child_for_label(&JsxChild::Fragment(vec![nested(1, text("Save"))]), 1));
    // a component without children may render a label, unless it is a control itself
    assert!(r.check_child_for_label(&JsxChild::Element(el("Icon", vec![], vec![])), 1));
    assert!(!r.check_child_for_label(&JsxChild::Element(el("Icon", vec![], vec![text(" ")])), 1));
    let c = rule_with(obj(vec![("controlComponents", strs(&["Icon"]))]));
    assert!(!c.check_child_for_label(&JsxChild::Element(el("Icon", vec![], vec![])), 1));

    let deep = rule_with(obj(vec![("depth", ConfigValue::Number(JsonNumber::PosInt(25)))]));
    assert!(deep.check_child_for_label(&nested(24, text("Save")), 1));
    assert!(!deep.check_child_for_label(&nested(25, text("Save")), 1));
    assert!(!deep.check_child_for_label(&JsxChild::ExpressionContainer, 26));
    assert!(!deep.check_child_for_label(&JsxChild::ExpressionContainer, u8::MAX));
}

#[test]
fn may_have_accessible_label() {
    let r = ControlHasAssociatedLabel::default();
    assert!(r.may_have_accessible_label(&el("button", vec![attr("aria-label", lit("Save"))], vec![])));
    assert!(r.may_have_accessible_label(&el("button", vec![], vec![text(" "), text("Save")])));
    assert!(!r.may_have_accessible_label(&el("button", vec![], vec![text(" "), JsxChild::Spread])));
    let zero = rule_with(obj(vec![("depth", ConfigValue::Number(JsonNumber::PosInt(0)))]));
    assert!(!zero.may_have_accessible_label(&el("button", vec![], vec![text("Save")])));
    assert!(zero.may_have_accessible_label(&el("button", vec![JsxAttributeItem::SpreadAttribute], vec![])));
}

#[test]
fn run_reports_only_unlabelled_controls() {
    let r = ControlHasAssociatedLabel::default();
    let bare = el("button", vec![], vec![]);
    let d = r.run(&bare, &control()).expect("reported");
    assert_eq!(d.span, Span { start: 3, end: 11 });
    assert_eq!(d.severity, Severity::Warning);
    assert_eq!(d.message, "A control must be associated with a text label.");
    assert!(r.run(&el("button", vec![], vec![text("Save")]), &control()).is_none());
    assert!(r.run(&bare, &plain()).is_none());
    assert!(r.run(&bare, &ElementFacts { is_hidden_from_screen_reader: true, ..control() }).is_none());
    assert!(r.run(&el("link", vec![], vec![]), &control()).is_none());
    assert!(r.run(&el("input", vec![], vec![]), &control()).is_none());
    let div = el("div", vec![], vec![]);
    let role = |name: &str, interactive: bool| ElementFacts {
        role: Some(s(name)),
        is_interactive_role: interactive,
        ..plain()
    };
    assert!(r.run(&div, &role("button", true)).is_some());
    assert!(r.run(&div, &role("grid", true)).is_none());
    assert!(r.run(&div, &role("alert", false)).is_none());
    assert!(r.run(&div, &ElementFacts { is_dom_element: false, ..role("button", true) }).is_none());
    assert!(r.run(&div, &ElementFacts { role: None, is_interactive_role: true, ..plain() }).is_none());
    let custom = el("Custom", vec![], vec![]);
    assert!(r.run(&custom, &plain()).is_none());
    let c = rule_with(obj(vec![("controlComponents", strs(&["Custom"]))]));
    assert!(c.run(&custom, &plain()).is_some());
    let ig = rule_with(obj(vec![("ignoreElements", strs(&["button"])), ("ignoreRoles", strs(&[]))]));
    assert!(ig.run(&bare, &control()).is_none());
    assert!(ig.run(&el("input", vec![], vec![]), &control()).is_some());
    assert!(ig.run(&div, &role("grid", true)).is_some());
}

#[test]
fn diagnostic_text() {
    let d = control_has_associated_label_diagnostic(Span { start: 0, end: 9 });
    assert_eq!(d.severity, Severity::Warning);
    assert_eq!(d.message, "A control must be associated with a text label.");
    assert_eq!(
        d.help,
        "Add a text label to the control element. This can be done by adding text content, an `aria-label` attribute, or an `aria-labelledby` attribute."
    );
    assert_eq!(d.span, Span { start: 0, end: 9 });
}

#[test]
fn deeper_search_reports_less() {
    let button = el("button", vec![], vec![nested(3, text("Save"))]);
    let at = |d: u64| rule_with(obj(vec![("depth", ConfigValue::Number(JsonNumber::PosInt(d)))]));
    assert!(at(2).run(&button, &control()).is_some());
    assert!(at(3).run(&button, &control()).is_some());
    for d in 4..30 {
        assert!(at(d).run(&button, &control()).is_none());
    }
}

#[test]
fn more_children_keep_a_label() {
    let r = ControlHasAssociatedLabel::default();
    let mut children = vec![text("Save")];
    for _ in 0..5 {
        children.push(JsxChild::Spread);
        assert!(r.may_have_accessible_label(&el("button", vec![], children)));
        children = vec![text("Save"), JsxChild::Spread];
    }
}


#[test]
fn more_label_attributes_report_less() {
    let button = el("button", vec![], vec![JsxChild::Element(el("span", vec![attr("label", lit("Save"))], vec![]))]);
    let plain_rule = ControlHasAssociatedLabel::default();
    let wide = rule_with(obj(vec![("labelAttributes", strs(&["label"]))]));
    assert!(plain_rule.run(&button, &control()).is_some());
    assert!(wide.run(&button, &control()).is_none());
}

#[test]
fn ignoring_more_reports_less() {
    let bare = el("button", vec![], vec![]);
    let strict = rule_with(obj(vec![("ignoreElements", strs(&[]))]));
    let loose = rule_with(obj(vec![("ignoreElements", strs(&["button"]))]));
    assert!(strict.run(&bare, &control()).is_some());
    assert!(loose.run(&bare, &control()).is_none());
}
