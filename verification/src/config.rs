//! The rule's options: their JSON form, their model, and how the one gives the other.
use vstd::prelude::*;
use crate::text::{texts, same_text};

verus! {

/// Largest search depth a configuration can ask for.
pub const MAX_DEPTH: u8 = 25;

/// Search depth when none is configured.
pub const DEFAULT_DEPTH: u8 = 2;

/// A JSON number, as far as the options read it.
#[derive(Debug, Clone, Copy, PartialEq, Eq, Structural)]
pub enum JsonNumber {
    /// A non-negative integer.
    PosInt(u64),
    /// A negative integer.
    NegInt(i64),
    /// A number with a fraction or an exponent.
    Float,
}

/// A JSON value, as the rule's options arrive.
#[derive(Debug)]
pub enum ConfigValue {
    Null,
    Bool(bool),
    Number(JsonNumber),
    String(String),
    Array(Vec<ConfigValue>),
    /// The members of an object, in order. A JSON object has distinct keys;
    /// where this list repeats one, looking it up finds the first member.
    Object(Vec<ConfigEntry>),
}

/// One member of a JSON object.
#[derive(Debug)]
pub struct ConfigEntry {
    pub key: String,
    pub value: ConfigValue,
}

/// The value of the first member named `key`.
pub open spec fn lookup(entries: Seq<ConfigEntry>, key: Seq<char>) -> Option<ConfigValue>
    decreases entries.len(),
{
    if entries.len() == 0 {
        None
    } else if entries[0].key@ == key {
        Some(entries[0].value)
    } else {
        lookup(entries.skip(1), key)
    }
}

/// `value[i]`: the `i`th element of an array, `None` otherwise.
pub open spec fn spec_at(v: ConfigValue, i: int) -> Option<ConfigValue> {
    match v {
        ConfigValue::Array(a) => if 0 <= i < a@.len() {
            Some(a@[i])
        } else {
            None
        },
        _ => None,
    }
}

/// `value[key]`: the member `key` of an object, `None` otherwise.
pub open spec fn spec_get(v: ConfigValue, key: Seq<char>) -> Option<ConfigValue> {
    match v {
        ConfigValue::Object(es) => lookup(es@, key),
        _ => None,
    }
}

/// The value as a `u64`, when it is a non-negative integer.
pub open spec fn spec_as_u64(v: ConfigValue) -> Option<u64> {
    match v {
        ConfigValue::Number(JsonNumber::PosInt(n)) => Some(n),
        _ => None,
    }
}

/// The elements of an array.
pub open spec fn spec_as_array(v: ConfigValue) -> Option<Seq<ConfigValue>> {
    match v {
        ConfigValue::Array(a) => Some(a@),
        _ => None,
    }
}

/// The strings among `vals`, in order; other values are skipped.
pub open spec fn strings_of(vals: Seq<ConfigValue>) -> Seq<Seq<char>>
    decreases vals.len(),
{
    if vals.len() == 0 {
        Seq::empty()
    } else {
        let rest = strings_of(vals.drop_last());
        match vals.last() {
            ConfigValue::String(s) => rest.push(s@),
            _ => rest,
        }
    }
}

impl ConfigValue {
    /// `self[i]`
    pub fn at(&self, i: usize) -> (r: Option<&ConfigValue>)
        ensures
            r matches Some(x) ==> spec_at(*self, i as int) == Some(*x),
            r is None ==> spec_at(*self, i as int) is None,
    {
        match self {
            ConfigValue::Array(a) => if i < a.len() {
                Some(&a[i])
            } else {
                None
            },
            _ => None,
        }
    }

    /// `self[key]`
    pub fn get(&self, key: &str) -> (r: Option<&ConfigValue>)
        ensures
            r matches Some(x) ==> spec_get(*self, key@) == Some(*x),
            r is None ==> spec_get(*self, key@) is None,
    {
        match self {
            ConfigValue::Object(es) => {
                let mut i: usize = 0;
                assert(es@.skip(0) =~= es@);
                while i < es.len()
                    invariant
                        i <= es@.len(),
                        lookup(es@, key@) == lookup(es@.skip(i as int), key@),
                        spec_get(*self, key@) == lookup(es@, key@),
                    decreases es@.len() - i,
                {
                    let ghost rest = es@.skip(i as int);
                    assert(rest[0] == es@[i as int]);
                    assert(rest.skip(1) =~= es@.skip(i + 1));
                    if same_text(es[i].key.as_str(), key) {
                        assert(rest.len() > 0);
                        assert(lookup(rest, key@) == Some(rest[0].value));
                        return Some(&es[i].value);
                    }
                    i = i + 1;
                }
                assert(es@.skip(i as int).len() == 0);
                None
            },
            _ => None,
        }
    }

    pub fn as_u64(&self) -> (r: Option<u64>)
        ensures
            r == spec_as_u64(*self),
    {
        match self {
            ConfigValue::Number(JsonNumber::PosInt(n)) => Some(*n),
            _ => None,
        }
    }

    pub fn as_array(&self) -> (r: Option<&Vec<ConfigValue>>)
        ensures
            r matches Some(a) ==> spec_as_array(*self) == Some(a@),
            r is None ==> spec_as_array(*self) is None,
    {
        match self {
            ConfigValue::Array(a) => Some(a),
            _ => None,
        }
    }
}

/// The strings of `vals`, in order, as owned strings.
fn collect_strings(vals: &Vec<ConfigValue>) -> (r: Vec<String>)
    ensures
        texts(r@) == strings_of(vals@),
{
    let mut out: Vec<String> = Vec::new();
    let mut i: usize = 0;
    while i < vals.len()
        invariant
            i <= vals@.len(),
            texts(out@) == strings_of(vals@.take(i as int)),
        decreases vals@.len() - i,
    {
        let ghost before = out@;
        assert(vals@.take(i + 1).drop_last() =~= vals@.take(i as int));
        match &vals[i] {
            ConfigValue::String(s) => {
                out.push(s.clone());
                assert(texts(out@) =~= texts(before).push(s@));
            },
            _ => {},
        }
        i = i + 1;
    }
    assert(vals@.take(vals@.len() as int) =~= vals@);
    out
}

/// The options in mathematical form.
pub struct ConfigModel {
    /// How deep below the control a label is looked for.
    pub depth: nat,
    /// Attribute names that count as labels besides `alt`, `aria-label`, `aria-labelledby`.
    pub label_attributes: Seq<Seq<char>>,
    /// Custom components treated as controls.
    pub control_components: Seq<Seq<char>>,
    /// Element types never checked (besides `link`).
    pub ignore_elements: Seq<Seq<char>>,
    /// Roles never checked.
    pub ignore_roles: Seq<Seq<char>>,
}

pub open spec fn default_ignore_elements() -> Seq<Seq<char>> {
    seq!["audio"@, "canvas"@, "embed"@, "input"@, "textarea"@, "tr"@, "video"@]
}

pub open spec fn default_ignore_roles() -> Seq<Seq<char>> {
    seq![
        "grid"@,
        "listbox"@,
        "menu"@,
        "menubar"@,
        "radiogroup"@,
        "row"@,
        "tablist"@,
        "toolbar"@,
        "tree"@,
        "treegrid"@,
    ]
}

/// The options when nothing is configured.
pub open spec fn default_model() -> ConfigModel {
    ConfigModel {
        depth: DEFAULT_DEPTH as nat,
        label_attributes: Seq::empty(),
        control_components: Seq::empty(),
        ignore_elements: default_ignore_elements(),
        ignore_roles: default_ignore_roles(),
    }
}

/// A list option: the strings of the array at `key`, or `otherwise` when there is no array.
pub open spec fn list_option(options: ConfigValue, key: Seq<char>, otherwise: Seq<Seq<char>>) -> Seq<
    Seq<char>,
> {
    match spec_get(options, key) {
        Some(v) => match spec_as_array(v) {
            Some(a) => strings_of(a),
            None => otherwise,
        },
        None => otherwise,
    }
}

/// The search depth asked for by `options`: at most `MAX_DEPTH`.
pub open spec fn depth_option(options: ConfigValue) -> nat {
    match spec_get(options, "depth"@) {
        Some(v) => match spec_as_u64(v) {
            Some(d) => if d <= MAX_DEPTH {
                d as nat
            } else {
                MAX_DEPTH as nat
            },
            None => DEFAULT_DEPTH as nat,
        },
        None => DEFAULT_DEPTH as nat,
    }
}

/// The options that a configuration value gives: the first element of the array,
/// read member by member; what it leaves out keeps its default.
pub open spec fn configured_model(value: ConfigValue) -> ConfigModel {
    match spec_at(value, 0) {
        None => default_model(),
        Some(options) => ConfigModel {
            depth: depth_option(options),
            label_attributes: list_option(options, "labelAttributes"@, Seq::empty()),
            control_components: list_option(options, "controlComponents"@, Seq::empty()),
            ignore_elements: list_option(options, "ignoreElements"@, default_ignore_elements()),
            ignore_roles: list_option(options, "ignoreRoles"@, default_ignore_roles()),
        },
    }
}

/// The options of the rule.
#[derive(Debug)]
pub struct ControlHasAssociatedLabelConfig {
    depth: u8,
    label_attributes: Vec<String>,
    control_components: Vec<String>,
    ignore_elements: Vec<String>,
    ignore_roles: Vec<String>,
}

impl View for ControlHasAssociatedLabelConfig {
    type V = ConfigModel;

    closed spec fn view(&self) -> ConfigModel {
        ConfigModel {
            depth: self.depth as nat,
            label_attributes: texts(self.label_attributes@),
            control_components: texts(self.control_components@),
            ignore_elements: texts(self.ignore_elements@),
            ignore_roles: texts(self.ignore_roles@),
        }
    }
}

fn owned(s: &str) -> (r: String)
    ensures
        r@ == s@,
{
    String::from_str(s)
}

fn default_ignore_element_list() -> (r: Vec<String>)
    ensures
        texts(r@) == default_ignore_elements(),
{
    let r = vec![
        owned("audio"),
        owned("canvas"),
        owned("embed"),
        owned("input"),
        owned("textarea"),
        owned("tr"),
        owned("video"),
    ];
    assert(texts(r@) =~= default_ignore_elements());
    r
}

fn default_ignore_role_list() -> (r: Vec<String>)
    ensures
        texts(r@) == default_ignore_roles(),
{
    let r = vec![
        owned("grid"),
        owned("listbox"),
        owned("menu"),
        owned("menubar"),
        owned("radiogroup"),
        owned("row"),
        owned("tablist"),
        owned("toolbar"),
        owned("tree"),
        owned("treegrid"),
    ];
    assert(texts(r@) =~= default_ignore_roles());
    r
}

impl ControlHasAssociatedLabelConfig {
    /// A configuration never searches deeper than `MAX_DEPTH`.
    #[verifier::type_invariant]
    spec fn depth_within_limit(self) -> bool {
        self.depth <= MAX_DEPTH
    }

    /// The configured options, with the depth capped at `MAX_DEPTH`.
    pub fn new(
        depth: u8,
        label_attributes: Vec<String>,
        control_components: Vec<String>,
        ignore_elements: Vec<String>,
        ignore_roles: Vec<String>,
    ) -> (r: Self)
        ensures
            r@.depth == (if depth <= MAX_DEPTH {
                depth as nat
            } else {
                MAX_DEPTH as nat
            }),
            r@.label_attributes == texts(label_attributes@),
            r@.control_components == texts(control_components@),
            r@.ignore_elements == texts(ignore_elements@),
            r@.ignore_roles == texts(ignore_roles@),
    {
        let depth = if depth <= MAX_DEPTH {
            depth
        } else {
            MAX_DEPTH
        };
        ControlHasAssociatedLabelConfig {
            depth,
            label_attributes,
            control_components,
            ignore_elements,
            ignore_roles,
        }
    }

    /// The options that a configuration value gives (see `configured_model`).
    pub fn from_value(value: &ConfigValue) -> (r: Self)
        ensures
            r@ == configured_model(*value),
    {
        let mut config = Self::default();
        let options = match value.at(0) {
            Some(o) => o,
            None => {
                return config;
            },
        };
        match options.get("depth") {
            Some(v) => match v.as_u64() {
                Some(depth) => {
                    config.depth = if depth <= MAX_DEPTH as u64 {
                        depth as u8
                    } else {
                        MAX_DEPTH
                    };
                },
                None => {},
            },
            None => {},
        }
        match options.get("labelAttributes") {
            Some(v) => match v.as_array() {
                Some(a) => {
                    config.label_attributes = collect_strings(a);
                },
                None => {},
            },
            None => {},
        }
        match options.get("controlComponents") {
            Some(v) => match v.as_array() {
                Some(a) => {
                    config.control_components = collect_strings(a);
                },
                None => {},
            },
            None => {},
        }
        match options.get("ignoreElements") {
            Some(v) => match v.as_array() {
                Some(a) => {
                    config.ignore_elements = collect_strings(a);
                },
                None => {},
            },
            None => {},
        }
        match options.get("ignoreRoles") {
            Some(v) => match v.as_array() {
                Some(a) => {
                    config.ignore_roles = collect_strings(a);
                },
                None => {},
            },
            None => {},
        }
        config
    }

    /// Maximum depth to search for an accessible label within the element.
    pub fn depth(&self) -> (r: u8)
        ensures
            r as nat == self@.depth,
            r <= MAX_DEPTH,
    {
        proof {
            use_type_invariant(self);
        }
        self.depth
    }

    /// Additional attributes to check for accessible label text.
    pub fn label_attributes(&self) -> (r: &Vec<String>)
        ensures
            texts(r@) == self@.label_attributes,
    {
        &self.label_attributes
    }

    /// Custom JSX components to be treated as interactive controls.
    pub fn control_components(&self) -> (r: &Vec<String>)
        ensures
            texts(r@) == self@.control_components,
    {
        &self.control_components
    }

    /// Elements to ignore (in addition to `link`).
    pub fn ignore_elements(&self) -> (r: &Vec<String>)
        ensures
            texts(r@) == self@.ignore_elements,
    {
        &self.ignore_elements
    }

    /// Interactive roles to ignore.
    pub fn ignore_roles(&self) -> (r: &Vec<String>)
        ensures
            texts(r@) == self@.ignore_roles,
    {
        &self.ignore_roles
    }
}

/// Owned copies of `v`'s strings.
fn clone_strings(v: &Vec<String>) -> (r: Vec<String>)
    ensures
        texts(r@) == texts(v@),
{
    let mut out: Vec<String> = Vec::new();
    let mut i: usize = 0;
    while i < v.len()
        invariant
            i <= v@.len(),
            out@.len() == i,
            forall|j: int| 0 <= j < i ==> out@[j]@ == v@[j]@,
        decreases v@.len() - i,
    {
        let c = v[i].clone();
        out.push(c);
        i = i + 1;
    }
    assert(texts(out@) =~= texts(v@));
    out
}

impl Clone for ControlHasAssociatedLabelConfig {
    fn clone(&self) -> (r: Self)
        ensures
            r@ == self@,
    {
        proof {
            use_type_invariant(self);
        }
        ControlHasAssociatedLabelConfig {
            depth: self.depth,
            label_attributes: clone_strings(&self.label_attributes),
            control_components: clone_strings(&self.control_components),
            ignore_elements: clone_strings(&self.ignore_elements),
            ignore_roles: clone_strings(&self.ignore_roles),
        }
    }
}

impl Default for ControlHasAssociatedLabelConfig {
    fn default() -> (r: Self)
        ensures
            r@ == default_model(),
    {
        let r = ControlHasAssociatedLabelConfig {
            depth: DEFAULT_DEPTH,
            label_attributes: Vec::new(),
            control_components: Vec::new(),
            ignore_elements: default_ignore_element_list(),
            ignore_roles: default_ignore_role_list(),
        };
        assert(texts(r.label_attributes@) =~= Seq::empty());
        r
    }
}

} // verus!
