//! Converts triangle meshes, given as faces over shared attribute arrays,
//! into a compact vertex/index buffer: layout negotiation, vertex welding,
//! index-width selection, attribute packing and the binary encoding.
pub mod layout;
pub mod weld;
pub mod pack;
pub mod encode;
