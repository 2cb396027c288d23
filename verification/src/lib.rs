//! Interaction engine for a small physical-input-driven device UI.
//!
//! The crate provides the pieces that compose and drive multi-step user
//! flows on a device with fixed memory and a single synchronous event loop:
//!
//! * [`screen::Screen`] — the capability contract every UI unit satisfies:
//!   compute a layout from bounds, handle one event at a time, render into a
//!   recording target, describe itself to a tracer, and report swipe-paging
//!   metadata.
//! * [`store`] — the flow store: an ordered, append-only, heterogeneous
//!   collection of screens with index-addressed dispatch.
//! * [`choice`] — the choice navigator: a bounded, paginated single-selection
//!   engine driven by a three-button vocabulary.
//! * [`bld_menu`] — a concrete menu screen built from the same pieces.
//! * [`recovery`] — slot addressing and grouping for the bounded key/value
//!   store that holds recovery shares.

pub mod bld_menu;
pub mod buttons;
pub mod choice;
pub mod event;
pub mod geometry;
pub mod recovery;
pub mod render;
pub mod screen;
pub mod store;
