//! Colors and the style sheets built from them.

pub mod color;
pub mod styles;
