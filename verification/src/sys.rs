//! Operating-system facing components.

pub mod signal;
