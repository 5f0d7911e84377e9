//! Verified core of a small immediate-mode GUI application: a window with a
//! menu bar, a text field, a slider, an increment button and static labels,
//! whose state is persisted across restarts.
//!
//! The rendering host (eframe/egui) lives outside this crate. Everything the
//! application itself decides — the state record and its defaults, how a frame
//! event changes the state, which snapshot is written at shutdown and how a
//! snapshot is restored at startup, which menu entries and widgets appear, the
//! font and style tables — is modelled here on plain values and verified.
//!
//! The GUI framework measures sizes and slider positions in fractional units.
//! Every such quantity in this crate is held in *tenths* of that unit, as an
//! integer: the application only ever uses whole tenths (steps of 1.0, a range
//! of 0.0..=10.0, sizes like 32.0 or 2.7), so tenths represent each of its
//! values exactly.

pub mod frame;
pub mod layout;
pub mod persist;
pub mod state;
pub mod style;
