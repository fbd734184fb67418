//! Merges independently parsed triangle meshes into one model document: every
//! mesh becomes a leaf object, and a synthesized group object references all of
//! them through components and is the single item of the build list.
pub mod model;
pub mod convert;
pub mod naming;
pub mod assembly;
pub mod document;
