//! Core of a terminal feed dashboard: a cursor-addressed list with wrap-around
//! navigation, and the view-state machine that owns selection, the List/Detail
//! mode, and the timed refresh policy. Terminal drawing and network fetching
//! live outside this crate; the functions here decide every transition and are
//! verified against the invariants they must keep.

pub mod selectable;
pub mod state;
