# control_has_associated_label

The `control-has-associated-label` accessibility rule for JSX, verified with Verus:
a control (an interactive element, an HTML element with an interactive role, or a
configured control component) must carry a text label, from its own attributes or
from its content down to a configured depth.

- `src/text.rs`: white space, blank strings, string equality and membership.
- `src/jsx.rs`: the parts of a JSX element that the rule reads, as plain values.
- `src/config.rs`: the rule's options, their JSON form and the reading of one into the other.
- `src/rule.rs`: the rule: label search, the check of an element, the warning.
- `src/laws.rs`: properties proved of every element and configuration.
- `app/lib.rs`: glue to oxc: JSON options, AST elements, oxc diagnostics and the
  serde/schema form of the options.
