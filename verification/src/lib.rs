//! Status-line metrics for coding-assistant sessions shown in a Starship prompt.

pub mod hook;
pub mod metric;
pub mod pricing;
pub mod text;
pub mod timestamp;
pub mod transcript;
