//! Resolves a stable semantic definition identifier (struct, field, module,
//! macro, ...) back to the concrete syntax node, and the file that node lives
//! in, from which the definition was derived.

pub mod db;
pub mod ids;
pub mod laws;
pub mod modules;
pub mod protocol;
pub mod syntax;
