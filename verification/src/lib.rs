//! Verified core of an interactive building/traffic-map editor.
//!
//! The editor itself runs inside a game engine: scenes, asset loading,
//! mouse picking and the property panels are engine work and live
//! outside this crate. What this crate holds is every decision the
//! editor makes on plain values: which primitive a click selects, which
//! entities get picking tags, how the floor's vertex list is rendered
//! to and parsed from its text field, how the one-shot actor animation
//! setup tracks what it has already started, and what each main-menu or
//! save button does.

pub mod actor;
pub mod decimal;
pub mod editor;
pub mod floor_plan;
pub mod menu;
pub mod picking;
pub mod primitives;
