//! Signature scanning over loaded module images: byte patterns with wildcards
//! and capture markers are matched against a module's code bytes, and the
//! captured sites become a name-to-RVA table per module.

pub mod pattern;
pub mod table;
pub mod image;
pub mod resolver;
pub mod builder;
pub mod registry;
