//! Window anchoring and placement rules for a desktop sticky-notes application.
//!
//! The crate holds the decisions of the application and nothing that touches
//! the windowing system: the caller reads geometry from the operating system,
//! hands it over as plain values, and carries out what comes back.
//!
//! Anchoring works on logical geometry in fixed-point: a coordinate is an
//! `i32` counted in units of which [`geometry::UNITS_PER_PIXEL`] make one
//! logical pixel. Placement of notes among each other, in [`windows`], works
//! on whole physical pixels.

pub mod anchor;
pub mod geometry;
pub mod inventory;
pub mod menu;
pub mod registry;
pub mod resolver;
pub mod save_load;
pub mod tracking;
pub mod windows;
