//! Selection geometry and interaction engine for an interactive
//! screenshot-region picker on a multi-monitor desktop.
//!
//! The crate provides the rectangle algebra ([`rect`]) and region
//! algebra ([`region`]), coordinate-space transforms ([`traits`]), the
//! selection data model ([`selection`]), the state machine and damage
//! accumulator ([`engine`]), textual rectangle parsing ([`parse`]) and
//! window searching ([`window`]). All geometry is in integer desktop
//! pixels; the conversion to normalized render space is left to the
//! (unverified) rendering layer.

pub mod args;
pub mod engine;
pub mod errors;
pub mod parse;
pub mod rect;
pub mod region;
pub mod selection;
pub mod traits;
pub mod window;

pub use rect::Extents;
pub use rect::Rect;
