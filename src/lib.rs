//! A fixed palette of the sixteen standard terminal colors, and the decision
//! that turns on ANSI escape processing on a console whose mode is known.

pub mod color;
pub mod console;
