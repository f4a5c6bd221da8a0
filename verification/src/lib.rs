//! Keeps a keyboard backlight's brightness and colour across a suspend and
//! resume cycle: what to trust of a stored or captured value, which default
//! takes its place, and what has to be written where.

pub mod config;
pub mod effect;
pub mod error;
pub mod state;
pub mod text;
pub mod transition;
pub mod validate;
