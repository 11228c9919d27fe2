pub mod bright;
pub mod codes;
pub mod colorful;
pub mod decimal;
pub mod laws;

pub use crate::bright::{Bright, StyledView};
pub use crate::codes::{Color, Style};
pub use crate::colorful::Colorful;
