//! A minimal application-state machine for a graphical program: a loading
//! screen with a rotating spinner is shown for a fixed duration, then the
//! program switches to a playing state with a placeholder label.
//!
//! Everything is modeled over plain values: time is measured in integer
//! milliseconds, the visual tree is a list of plain nodes, and the rotating
//! spinner accumulates clockwise milliradians. A host loop (outside this
//! library) feeds per-frame elapsed times and renders the node list.

pub mod lemmas;
pub mod machine;
pub mod state;
pub mod timer;
pub mod ui;
