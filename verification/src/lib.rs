//! A loader for WebAssembly mods: it reads a mod's package descriptor, derives
//! the mod's paths and names from it, and runs the mod's module once inside an
//! embedded WebAssembly engine with a single host function linked in.

pub mod descriptor;
pub mod error;
pub mod host;
pub mod mods;
pub mod run;
pub mod text;
pub mod wasm;
pub mod yaml;
