//! The built-in plugins: each installs its engines into the arena and
//! hands back the router that reaches them.

pub mod javascript;
pub mod python;
pub mod rust;
pub mod search;
pub mod simple;
