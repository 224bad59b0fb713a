//! Supervision of a local backend server process: where it lives, how it is
//! launched, when it counts as ready, and how it is stopped exactly once.

pub mod error;
pub mod health;
pub mod launch;
pub mod lifecycle;
pub mod paths;
pub mod text;
