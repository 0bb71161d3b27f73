//! Widgets for a terminal user interface: a clickable button with an
//! edge-triggered press/release state machine, a static text label, and the
//! box-drawing glyph tables used to draw lines between cells.
pub mod button;
pub mod escape;
pub mod glyph;
pub mod label;
