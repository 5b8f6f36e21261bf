//! Binding generator: an interface model of exported modules, classes and
//! functions, a collector that assembles it, a type resolver, and the emitters
//! that project the model into a type-declaration text, a wrapper text, a flat
//! foreign-call shim text and the list of exported symbols.

pub mod text;
pub mod model;
pub mod resolve;
pub mod declaration;
pub mod symbols;
pub mod shim;
pub mod wrapper;
pub mod registry;
pub mod syntax;
pub mod collector;
pub mod facade;
pub mod arguments;
pub mod snapshot;
pub mod manifest;
