//! Loading of Blockbench model documents: validation of the document and of
//! its embedded texture, derivation of cube geometry, and a registry of named
//! models that can be replaced in place.

pub mod blockbench;
pub mod codec;
pub mod cube;
pub mod error;
pub mod json;
pub mod model;
pub mod plugin;
pub mod scalar;
