//! Properties of the rule that hold for every element and every configuration.
use vstd::prelude::*;
use crate::config::{ConfigModel, ConfigValue, MAX_DEPTH, configured_model};
use crate::jsx::{ElementFacts, JsxChild, JsxElement};
use crate::rule::{
    attribute_labels, child_labels, children_label, has_labelling_attribute, is_control,
    is_ignored, may_be_labelled, reports,
};

verus! {

/// `m2` looks for labels at least as widely as `m1`: as deep or deeper, with every
/// label attribute of `m1` and the same control components.
pub open spec fn searches_at_least_as_widely(m1: ConfigModel, m2: ConfigModel) -> bool {
    &&& m1.depth <= m2.depth
    &&& forall|n: Seq<char>| #[trigger] m1.label_attributes.contains(n) ==> m2.label_attributes.contains(n)
    &&& m1.control_components == m2.control_components
}

/// `m2` ignores every element type and role that `m1` ignores (and maybe more).
pub open spec fn ignores_at_least_as_much(m1: ConfigModel, m2: ConfigModel) -> bool {
    &&& forall|n: Seq<char>| #[trigger] m1.ignore_elements.contains(n) ==> m2.ignore_elements.contains(n)
    &&& forall|n: Seq<char>| #[trigger] m1.ignore_roles.contains(n) ==> m2.ignore_roles.contains(n)
}

/// Labelling attributes under `m1` are labelling attributes under `m2`.
pub proof fn lemma_attribute_label_survives_wider_search(
    m1: ConfigModel,
    m2: ConfigModel,
    attrs: Seq<crate::jsx::JsxAttributeItem>,
)
    requires
        searches_at_least_as_widely(m1, m2),
        has_labelling_attribute(m1, attrs),
    ensures
        has_labelling_attribute(m2, attrs),
{
    let i = choose|i: int| 0 <= i < attrs.len() && #[trigger] attribute_labels(m1, attrs[i]);
    match attrs[i] {
        crate::jsx::JsxAttributeItem::Attribute(a) => {
            if m1.label_attributes.contains(a.name@) {
                assert(m2.label_attributes.contains(a.name@));
            }
        },
        _ => {},
    }
    assert(attribute_labels(m2, attrs[i]));
}

/// A label that a child gives under `m1` it also gives under any `m2` that
/// searches at least as widely (deeper, or with more label attributes).
pub proof fn lemma_child_label_survives_wider_search(
    m1: ConfigModel,
    m2: ConfigModel,
    c: JsxChild,
    depth: int,
)
    requires
        searches_at_least_as_widely(m1, m2),
        child_labels(m1, c, depth),
    ensures
        child_labels(m2, c, depth),
    decreases c,
{
    match c {
        JsxChild::Element(e) => {
            if has_labelling_attribute(m1, e.attributes@) {
                lemma_attribute_label_survives_wider_search(m1, m2, e.attributes@);
            } else if children_label(m1, e.children@, depth + 1) {
                lemma_children_label_survive_wider_search(m1, m2, e.children@, depth + 1);
            }
        },
        JsxChild::Fragment(cs) => {
            lemma_children_label_survive_wider_search(m1, m2, cs@, depth + 1);
        },
        _ => {},
    }
}

/// A label that a list of children gives under `m1` it also gives under any `m2`
/// that searches at least as widely.
pub proof fn lemma_children_label_survive_wider_search(
    m1: ConfigModel,
    m2: ConfigModel,
    cs: Seq<JsxChild>,
    depth: int,
)
    requires
        searches_at_least_as_widely(m1, m2),
        children_label(m1, cs, depth),
    ensures
        children_label(m2, cs, depth),
    decreases cs,
{
    if cs.len() > 0 {
        if children_label(m1, cs.drop_last(), depth) {
            lemma_children_label_survive_wider_search(m1, m2, cs.drop_last(), depth);
        } else {
            lemma_child_label_survives_wider_search(m1, m2, cs.last(), depth);
        }
    }
}

/// Loosening the configuration (searching deeper, with more label attributes,
/// ignoring more element types or roles) never makes the rule report an element
/// that it did not report before: whatever it reports under `m2`, it reports under `m1`.
pub proof fn lemma_looser_configuration_reports_less(
    m1: ConfigModel,
    m2: ConfigModel,
    e: JsxElement,
    facts: ElementFacts,
)
    requires
        searches_at_least_as_widely(m1, m2),
        ignores_at_least_as_much(m1, m2),
        reports(m2, e, facts),
    ensures
        reports(m1, e, facts),
{
    if m1.ignore_elements.contains(e.element_type@) {
        assert(m2.ignore_elements.contains(e.element_type@));
    }
    if let Some(r) = facts.role {
        if m1.ignore_roles.contains(r@) {
            assert(m2.ignore_roles.contains(r@));
        }
    }
    if has_labelling_attribute(m1, e.attributes@) {
        lemma_attribute_label_survives_wider_search(m1, m2, e.attributes@);
    }
    if children_label(m1, e.children@, 1) {
        lemma_children_label_survive_wider_search(m1, m2, e.children@, 1);
    }
}

/// No child lies within depth 0.
proof fn lemma_no_child_labels_at_depth_zero(m: ConfigModel, cs: Seq<JsxChild>)
    requires
        m.depth == 0,
    ensures
        !children_label(m, cs, 1),
    decreases cs.len(),
{
    if cs.len() > 0 {
        lemma_no_child_labels_at_depth_zero(m, cs.drop_last());
        assert(!child_labels(m, cs.last(), 1));
    }
}

/// With depth 0 only the element's own attributes can label it.
pub proof fn lemma_depth_zero_only_attributes_label(m: ConfigModel, e: JsxElement)
    requires
        m.depth == 0,
    ensures
        may_be_labelled(m, e) == has_labelling_attribute(m, e.attributes@),
{
    lemma_no_child_labels_at_depth_zero(m, e.children@);
}

/// A label found among the first `k` children is found among all of them:
/// more content never takes a label away.
pub proof fn lemma_children_label_prefix(m: ConfigModel, cs: Seq<JsxChild>, k: int, depth: int)
    requires
        0 <= k <= cs.len(),
        children_label(m, cs.take(k), depth),
    ensures
        children_label(m, cs, depth),
    decreases cs.len(),
{
    if k == cs.len() {
        assert(cs.take(k) =~= cs);
    } else {
        assert(cs.drop_last().take(k) =~= cs.take(k));
        lemma_children_label_prefix(m, cs.drop_last(), k, depth);
    }
}

/// A label among some children stays when more children follow them.
pub proof fn lemma_more_children_keep_label(
    m: ConfigModel,
    cs: Seq<JsxChild>,
    more: Seq<JsxChild>,
    depth: int,
)
    requires
        children_label(m, cs, depth),
    ensures
        children_label(m, cs + more, depth),
{
    assert((cs + more).take(cs.len() as int) =~= cs);
    lemma_children_label_prefix(m, cs + more, cs.len() as int, depth);
}

/// A control that labels itself through its own attributes is never reported.
pub proof fn lemma_labelled_by_attribute_never_reported(
    m: ConfigModel,
    e: JsxElement,
    facts: ElementFacts,
)
    requires
        has_labelling_attribute(m, e.attributes@),
    ensures
        !reports(m, e, facts),
{
}

/// Ignored elements (`link`, configured element types and roles, elements hidden
/// from screen readers) and elements that are no controls are never reported.
pub proof fn lemma_only_checked_controls_reported(m: ConfigModel, e: JsxElement, facts: ElementFacts)
    requires
        is_ignored(m, e, facts) || !is_control(m, e, facts),
    ensures
        !reports(m, e, facts),
{
}

/// Whatever the configuration value, the search depth it gives is at most `MAX_DEPTH`.
pub proof fn lemma_configured_depth_within_limit(value: ConfigValue)
    ensures
        configured_model(value).depth <= MAX_DEPTH,
{
}

} // verus!
