//! Verified core of the `control-has-associated-label` accessibility rule for JSX:
//! a control (an interactive element) must carry a text label.

pub mod behaviour;
pub mod config;
pub mod jsx;
pub mod laws;
pub mod rule;
pub mod text;
