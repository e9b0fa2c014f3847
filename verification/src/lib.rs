//! A retained-mode UI scene graph for a pointer-driven canvas surface.
//!
//! Interactive widgets are organised into ordered, possibly overlapping
//! layers inside a container; pointer events are resolved to the correct
//! widget by coordinate-based hit-testing, and widget handlers may request
//! that the active container be replaced, implementing menu-style
//! navigation. Rendering, font loading and the windowing surface are
//! external collaborators: this crate owns the layering, hit-testing and
//! container-swap machinery and proves its routing rules.

pub mod container;
pub mod fonts;
pub mod geometry;
pub mod layer;
pub mod manager;
pub mod screens;
pub mod widget;
