//! Decision core of a minimal tiling window manager.
//!
//! The host compositor owns the windows (views) and displays (outputs) and
//! drives an event loop; this crate holds the logic those events are routed
//! to: the interactive grab state machine (drag-move / drag-resize), the
//! automatic tiling layout, the focus/stack lookup, and the per-event
//! decisions. Everything here is pure computation on plain values; an
//! adapter around the crate performs the host calls the decisions ask for.

pub mod geometry;
pub mod grab;
pub mod dispatch;
pub mod layout;
pub mod stack;
