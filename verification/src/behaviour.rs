//! What each operation of the rule does, stated in plain terms of its inputs:
//! which attributes and which content label a control, which elements are
//! checked, how options are read, and which texts are blank.
use vstd::prelude::*;
use crate::jsx::{JsxAttribute, JsxAttributeItem, JsxAttributeValue, JsxChild, JsxElement};
use crate::config::{
    ConfigEntry, ConfigModel, ConfigValue, JsonNumber, MAX_DEPTH, DEFAULT_DEPTH, configured_model,
    default_ignore_elements, default_ignore_roles, lookup, spec_at, spec_get, strings_of,
};
use crate::jsx::ElementFacts;
use crate::rule::reports;
use crate::rule::{child_labels, children_label, has_labelling_attribute};
use crate::text::{is_blank_text, is_white_space};

verus! {

/// A spread attribute, at any position of the list, gives a label.
pub proof fn lemma_spread_attribute_labels(m: ConfigModel, attrs: Seq<JsxAttributeItem>, i: int)
    requires
        0 <= i < attrs.len(),
        attrs[i] is SpreadAttribute,
    ensures
        has_labelling_attribute(m, attrs),
{
    assert(crate::rule::attribute_labels(m, attrs[i]));
}

/// An `alt`, `aria-label` or `aria-labelledby` attribute, or a configured label
/// attribute, at any position of the list, gives a label when it has a value
/// other than a string made only of white space.
pub proof fn lemma_labelling_attribute_labels(
    m: ConfigModel,
    attrs: Seq<JsxAttributeItem>,
    i: int,
    a: JsxAttribute,
)
    requires
        0 <= i < attrs.len(),
        attrs[i] == JsxAttributeItem::Attribute(a),
        a.name@ == "alt"@ || a.name@ == "aria-label"@ || a.name@ == "aria-labelledby"@
            || m.label_attributes.contains(a.name@),
        a.value is Some,
        a.value matches Some(JsxAttributeValue::StringLiteral(s)) ==> exists|k: int|
            0 <= k < s@.len() && !#[trigger] is_white_space(s@[k]),
    ensures
        has_labelling_attribute(m, attrs),
{
    assert(crate::rule::attribute_labels(m, attrs[i]));
}

/// A list in which every item is an attribute with no value, or with a string
/// value made only of white space, or with a name that labels nothing, gives no label.
pub proof fn lemma_no_usable_attribute_no_label(m: ConfigModel, attrs: Seq<JsxAttributeItem>)
    requires
        forall|i: int|
            0 <= i < attrs.len() ==> (#[trigger] attrs[i] matches JsxAttributeItem::Attribute(a)
                && (a.value is None || (a.value matches Some(JsxAttributeValue::StringLiteral(s))
                && forall|k: int| 0 <= k < s@.len() ==> is_white_space(s@[k])) || !(a.name@
                == "alt"@ || a.name@ == "aria-label"@ || a.name@ == "aria-labelledby"@
                || m.label_attributes.contains(a.name@)))),
    ensures
        !has_labelling_attribute(m, attrs),
{
    assert forall|i: int| 0 <= i < attrs.len() implies !crate::rule::attribute_labels(
        m,
        attrs[i],
    ) by {
        assert(attrs[i] is Attribute);
    }
}

/// Inserting an attribute anywhere never takes a label away.
pub proof fn lemma_inserted_attribute_keeps_label(
    m: ConfigModel,
    attrs: Seq<JsxAttributeItem>,
    k: int,
    x: JsxAttributeItem,
)
    requires
        0 <= k <= attrs.len(),
        has_labelling_attribute(m, attrs),
    ensures
        has_labelling_attribute(m, attrs.insert(k, x)),
{
    let i = choose|i: int|
        0 <= i < attrs.len() && #[trigger] crate::rule::attribute_labels(m, attrs[i]);
    let j = if i < k {
        i
    } else {
        i + 1
    };
    assert(attrs.insert(k, x)[j] == attrs[i]);
    assert(crate::rule::attribute_labels(m, attrs.insert(k, x)[j]));
}

/// Inserting, anywhere, an attribute whose name labels nothing leaves the
/// answer unchanged.
pub proof fn lemma_inserted_plain_attribute_changes_nothing(
    m: ConfigModel,
    attrs: Seq<JsxAttributeItem>,
    k: int,
    a: JsxAttribute,
)
    requires
        0 <= k <= attrs.len(),
        !(a.name@ == "alt"@ || a.name@ == "aria-label"@ || a.name@ == "aria-labelledby"@
            || m.label_attributes.contains(a.name@)),
    ensures
        has_labelling_attribute(m, attrs.insert(k, JsxAttributeItem::Attribute(a)))
            == has_labelling_attribute(m, attrs),
{
    let x = JsxAttributeItem::Attribute(a);
    let t = attrs.insert(k, x);
    if has_labelling_attribute(m, attrs) {
        lemma_inserted_attribute_keeps_label(m, attrs, k, x);
    }
    if has_labelling_attribute(m, t) {
        let j = choose|j: int| 0 <= j < t.len() && #[trigger] crate::rule::attribute_labels(m, t[j]);
        assert(j != k);
        let i = if j < k {
            j
        } else {
            j - 1
        };
        assert(t[j] == attrs[i]);
        assert(crate::rule::attribute_labels(m, attrs[i]));
    }
}

/// A child labels the list it stands in, at any position.
pub proof fn lemma_labelling_child_labels_list(m: ConfigModel, cs: Seq<JsxChild>, i: int, depth: int)
    requires
        0 <= i < cs.len(),
        child_labels(m, cs[i], depth),
    ensures
        children_label(m, cs, depth),
    decreases cs.len(),
{
    if i < cs.len() - 1 {
        assert(cs.drop_last()[i] == cs[i]);
        lemma_labelling_child_labels_list(m, cs.drop_last(), i, depth);
    }
}

/// A list of children none of which labels gives no label.
pub proof fn lemma_no_labelling_child_no_label(m: ConfigModel, cs: Seq<JsxChild>, depth: int)
    requires
        forall|i: int| 0 <= i < cs.len() ==> !child_labels(m, #[trigger] cs[i], depth),
    ensures
        !children_label(m, cs, depth),
    decreases cs.len(),
{
    if cs.len() > 0 {
        assert forall|i: int| 0 <= i < cs.drop_last().len() implies !child_labels(
            m,
            #[trigger] cs.drop_last()[i],
            depth,
        ) by {
            assert(cs.drop_last()[i] == cs[i]);
        }
        lemma_no_labelling_child_no_label(m, cs.drop_last(), depth);
        assert(!child_labels(m, cs[cs.len() - 1], depth));
    }
}

/// Text within the depth limit labels exactly when it holds a character that is
/// not white space, wherever that character stands; beyond the limit nothing labels.
pub proof fn lemma_text_child_labels(m: ConfigModel, t: String, depth: int)
    ensures
        child_labels(m, JsxChild::Text(t), depth) == (depth <= m.depth && exists|k: int|
            0 <= k < t@.len() && !#[trigger] is_white_space(t@[k])),
        depth > m.depth ==> forall|c: JsxChild| !#[trigger] child_labels(m, c, depth),
{
}

/// An expression within the depth limit may render a label.
pub proof fn lemma_expression_child_labels(m: ConfigModel, depth: int)
    requires
        depth <= m.depth,
    ensures
        child_labels(m, JsxChild::ExpressionContainer, depth),
        !child_labels(m, JsxChild::Spread, depth),
{
}

/// A child element within the depth limit is labelled by any of its own
/// children that labels one level deeper, whatever attributes it carries.
pub proof fn lemma_child_element_labelled_by_content(
    m: ConfigModel,
    e: JsxElement,
    i: int,
    depth: int,
)
    requires
        depth <= m.depth,
        0 <= i < e.children@.len(),
        child_labels(m, e.children@[i], depth + 1),
    ensures
        child_labels(m, JsxChild::Element(e), depth),
{
    lemma_labelling_child_labels_list(m, e.children@, i, depth + 1);
}

/// A fragment within the depth limit is labelled by any of its children that
/// labels one level deeper.
pub proof fn lemma_fragment_labelled_by_content(
    m: ConfigModel,
    cs: Vec<JsxChild>,
    i: int,
    depth: int,
)
    requires
        depth <= m.depth,
        0 <= i < cs@.len(),
        child_labels(m, cs@[i], depth + 1),
    ensures
        child_labels(m, JsxChild::Fragment(cs), depth),
{
    lemma_labelling_child_labels_list(m, cs@, i, depth + 1);
}

/// Giving a child element more attributes never takes its label away.
pub proof fn lemma_more_attributes_keep_child_label(
    m: ConfigModel,
    e: JsxElement,
    e2: JsxElement,
    extra: Seq<JsxAttributeItem>,
    depth: int,
)
    requires
        e2.attributes@ == e.attributes@ + extra,
        e2.children@ == e.children@,
        e2.element_type@ == e.element_type@,
        e2.is_component_name == e.is_component_name,
        child_labels(m, JsxChild::Element(e), depth),
    ensures
        child_labels(m, JsxChild::Element(e2), depth),
{
    if has_labelling_attribute(m, e.attributes@) {
        let i = choose|i: int|
            0 <= i < e.attributes@.len() && #[trigger] crate::rule::attribute_labels(
                m,
                e.attributes@[i],
            );
        assert(e2.attributes@[i] == e.attributes@[i]);
        assert(crate::rule::attribute_labels(m, e2.attributes@[i]));
    }
}

/// An element that is neither an interactive element, nor an HTML element, nor
/// a configured control component is never reported, whatever its role and content.
pub proof fn lemma_non_html_non_control_never_reported(
    m: ConfigModel,
    e: JsxElement,
    facts: ElementFacts,
)
    requires
        !facts.is_interactive_element,
        !facts.is_dom_element,
        !m.control_components.contains(e.element_type@),
    ensures
        !reports(m, e, facts),
{
}

/// An element that is not an interactive element, has no interactive role and
/// is not a configured control component is never reported.
pub proof fn lemma_without_interactive_role_never_reported(
    m: ConfigModel,
    e: JsxElement,
    facts: ElementFacts,
)
    requires
        !facts.is_interactive_element,
        facts.role is None || !facts.is_interactive_role,
        !m.control_components.contains(e.element_type@),
    ensures
        !reports(m, e, facts),
{
}

/// A control with no attributes and no content is reported unless it is ignored:
/// an interactive element, an HTML element with an interactive role, or a
/// configured control component.
pub proof fn lemma_empty_control_reported(m: ConfigModel, e: JsxElement, facts: ElementFacts)
    requires
        e.attributes@.len() == 0,
        e.children@.len() == 0,
        e.element_type@ != "link"@,
        !m.ignore_elements.contains(e.element_type@),
        facts.role matches Some(r) ==> !m.ignore_roles.contains(r@),
        !facts.is_hidden_from_screen_reader,
        facts.is_interactive_element || (facts.is_dom_element && facts.role is Some
            && facts.is_interactive_role) || m.control_components.contains(e.element_type@),
    ensures
        reports(m, e, facts),
{
}

/// Looking a key up in an object finds its first member with that key, and
/// nothing when no member has it.
pub proof fn lemma_lookup_finds_first(entries: Seq<ConfigEntry>, key: Seq<char>, i: int)
    requires
        0 <= i < entries.len(),
        entries[i].key@ == key,
        forall|j: int| 0 <= j < i ==> (#[trigger] entries[j]).key@ != key,
    ensures
        lookup(entries, key) == Some(entries[i].value),
    decreases i,
{
    if i > 0 {
        assert forall|j: int| 0 <= j < i - 1 implies (#[trigger] entries.skip(1)[j]).key@ != key by {
            assert(entries.skip(1)[j] == entries[j + 1]);
        }
        assert(entries[0].key@ != key);
        lemma_lookup_finds_first(entries.skip(1), key, i - 1);
    }
}

/// Without a member named `key`, looking it up finds nothing.
pub proof fn lemma_lookup_absent(entries: Seq<ConfigEntry>, key: Seq<char>)
    requires
        forall|j: int| 0 <= j < entries.len() ==> (#[trigger] entries[j]).key@ != key,
    ensures
        lookup(entries, key) is None,
    decreases entries.len(),
{
    if entries.len() > 0 {
        assert forall|j: int| 0 <= j < entries.len() - 1 implies (#[trigger] entries.skip(
            1,
        )[j]).key@ != key by {
            assert(entries.skip(1)[j] == entries[j + 1]);
        }
        assert(entries[0].key@ != key);
        lemma_lookup_absent(entries.skip(1), key);
    }
}

/// The strings of a list are those of its parts, in order: a string element
/// gives its text and any other element gives nothing.
pub proof fn lemma_strings_of_parts(a: Seq<ConfigValue>, b: Seq<ConfigValue>, x: String)
    ensures
        strings_of(a + b) == strings_of(a) + strings_of(b),
        strings_of(seq![ConfigValue::String(x)]) == seq![x@],
        forall|v: ConfigValue| !(v is String) ==> #[trigger] strings_of(seq![v]) == Seq::<Seq<char>>::empty(),
    decreases b.len(),
{
    let e = Seq::<ConfigValue>::empty();
    assert(strings_of(e) =~= Seq::<Seq<char>>::empty());
    assert(seq![ConfigValue::String(x)].drop_last() =~= e);
    assert(seq![ConfigValue::String(x)].last() == ConfigValue::String(x));
    assert(strings_of(seq![ConfigValue::String(x)]) =~= seq![x@]);
    assert forall|v: ConfigValue| !(v is String) implies #[trigger] strings_of(seq![v])
        == Seq::<Seq<char>>::empty() by {
        assert(seq![v].drop_last() =~= e);
        assert(seq![v].last() == v);
    }
    if b.len() == 0 {
        assert(a + b =~= a);
        assert(strings_of(a) + strings_of(b) =~= strings_of(a));
    } else {
        lemma_strings_of_parts(a, b.drop_last(), x);
        assert((a + b).drop_last() =~= a + b.drop_last());
        assert((a + b).last() == b.last());
        match b.last() {
            ConfigValue::String(s) => {
                assert(strings_of(a) + strings_of(b) =~= (strings_of(a) + strings_of(
                    b.drop_last(),
                )).push(s@));
            },
            _ => {},
        }
    }
}

/// Each list option is read from its own member alone: when the options hold an
/// array under its name, the option is exactly that array's strings, whatever
/// the other members are.
pub proof fn lemma_list_options_read_alone(
    value: ConfigValue,
    options: ConfigValue,
    key: Seq<char>,
    a: Vec<ConfigValue>,
)
    requires
        spec_at(value, 0) == Some(options),
        spec_get(options, key) == Some(ConfigValue::Array(a)),
    ensures
        key == "labelAttributes"@ ==> configured_model(value).label_attributes == strings_of(a@),
        key == "controlComponents"@ ==> configured_model(value).control_components == strings_of(a@),
        key == "ignoreElements"@ ==> configured_model(value).ignore_elements == strings_of(a@),
        key == "ignoreRoles"@ ==> configured_model(value).ignore_roles == strings_of(a@),
{
}

/// A list option whose member is missing, or is not an array, keeps its default.
pub proof fn lemma_list_options_default(value: ConfigValue, options: ConfigValue)
    requires
        spec_at(value, 0) == Some(options),
    ensures
        !(spec_get(options, "labelAttributes"@) matches Some(ConfigValue::Array(_)))
            ==> configured_model(value).label_attributes.len() == 0,
        !(spec_get(options, "controlComponents"@) matches Some(ConfigValue::Array(_)))
            ==> configured_model(value).control_components.len() == 0,
        !(spec_get(options, "ignoreElements"@) matches Some(ConfigValue::Array(_)))
            ==> configured_model(value).ignore_elements == default_ignore_elements(),
        !(spec_get(options, "ignoreRoles"@) matches Some(ConfigValue::Array(_)))
            ==> configured_model(value).ignore_roles == default_ignore_roles(),
{
}

/// The depth is the configured non-negative integer, capped at `MAX_DEPTH`, and
/// `DEFAULT_DEPTH` when no such integer is given; without options everything is default.
pub proof fn lemma_depth_option(value: ConfigValue, options: ConfigValue)
    ensures
        spec_at(value, 0) == Some(options) ==> configured_model(value).depth == (match spec_get(
            options,
            "depth"@,
        ) {
            Some(ConfigValue::Number(JsonNumber::PosInt(d))) => if d <= 25 {
                d as nat
            } else {
                25
            },
            _ => 2,
        }),
        spec_at(value, 0) is None ==> configured_model(value).depth == 2
            && configured_model(value).label_attributes.len() == 0
            && configured_model(value).ignore_roles == default_ignore_roles(),
        MAX_DEPTH == 25 && DEFAULT_DEPTH == 2,
{
}

/// A text is blank exactly when each of its characters is white space: a text
/// made of two parts is blank when both parts are, and a single character is
/// blank when it is white space.
pub proof fn lemma_blank_parts(s: Seq<char>, t: Seq<char>, c: char)
    ensures
        is_blank_text(s + t) == (is_blank_text(s) && is_blank_text(t)),
        is_blank_text(seq![c]) == is_white_space(c),
        is_blank_text(Seq::empty()),
{
    if is_blank_text(s) && is_blank_text(t) {
        assert forall|i: int| 0 <= i < (s + t).len() implies #[trigger] is_white_space((s + t)[i]) by {
            if i >= s.len() {
                assert((s + t)[i] == t[i - s.len()]);
            }
        }
    }
    if is_blank_text(s + t) {
        assert forall|i: int| 0 <= i < s.len() implies #[trigger] is_white_space(s[i]) by {
            assert((s + t)[i] == s[i]);
        }
        assert forall|i: int| 0 <= i < t.len() implies #[trigger] is_white_space(t[i]) by {
            assert((s + t)[i + s.len()] == t[i]);
        }
    }
    if !is_white_space(c) {
        assert(!is_white_space(seq![c][0]));
    }
}

/// A text holding a character that is not white space, at any position, is not blank.
pub proof fn lemma_visible_char_not_blank(s: Seq<char>, k: int)
    requires
        0 <= k < s.len(),
        !is_white_space(s[k]),
    ensures
        !is_blank_text(s),
{
}

} // verus!
