//! Screen geometry and color management for a terminal list renderer.
use vstd::prelude::*;

pub mod text;
pub mod margin;
pub mod viewport;
pub mod theme;
pub mod color;
