//! A scrolling-text engine for an 8×8 LED dot matrix, the display front-ends
//! that drive the matrix panel, and a supervisor that keeps a network link up.

pub mod display;
pub mod dot_display;
pub mod font;
pub mod frame;
pub mod panel;
pub mod wifi;
