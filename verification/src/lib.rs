//! A drag-and-drop content-exchange coordinator.
//!
//! A fixed set of member elements is made mutually drag-and-drop
//! swappable. The coordinator owns the one piece of mutable state — the
//! drag session — and reacts to the five platform drag events
//! (`dragstart`, `dragenter`, `dragover`, `dragleave`, `drop`) plus the
//! terminal `dragend`. A drop exchanges the contents of the drag source
//! and the drop target; `dragend` restores every invariant on every exit
//! path, whether or not a drop occurred.
//!
//! The host page resolves each event's target to a member index, calls
//! the matching handler, and mirrors the resulting state (contents and
//! presentation markers) back onto its elements.

pub mod coordinator;
pub mod model;
