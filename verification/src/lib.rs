//! Verified core of an AI-interface component library: story routing for the
//! gallery, unified-diff parsing and printing, and the small policies the
//! components resolve their presentation through.

pub mod text;
pub mod code_diff;
pub mod diff_model;
pub mod diff_laws;
pub mod story;
pub mod usage;
pub mod motion;
pub mod arrival;
pub mod scrolling;
pub mod thinking;
pub mod surface;
pub mod fence;
pub mod code_block;
