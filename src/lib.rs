//! Layout-dependent introspection for a paginated document compiler.
//!
//! Content placed on pages receives a stable [`location::Location`]; each
//! layout pass indexes the located content in an [`introspector::Introspector`];
//! [`selector::Selector`] values query that index; and deferred values
//! ([`state::State`], [`counter::Counter`]) fold the update markers they
//! find in layout order. The [`driver`] decides when repeated passes have
//! settled.
//!
//! Around that core stand the elements that introspection serves: footnotes
//! and references that resolve labels ([`model`]), numberings of counters
//! and pages ([`numbering`], [`numerals`], [`pattern`]), per-cell grid values
//! ([`grid`]), math styles ([`math`]) and plain element data.

pub mod value;
pub mod location;
pub mod content;
pub mod selector;
pub mod state;
pub mod introspector;
pub mod driver;
pub mod numbering;
pub mod math;
pub mod grid;
pub mod model;
pub mod layout;
pub mod loading;
pub mod visualize;
pub mod text;
pub mod counter;
pub mod numerals;
pub mod pattern;
