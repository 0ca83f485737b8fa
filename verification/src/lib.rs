//! Translation of a parsed C++ header's declaration tree into
//! foreign-function bindings plus the C++ glue source that makes inline
//! functions linkable.
//!
//! The declaration tree arrives as plain values (`model::Entity`); the
//! processor walks it, maps every type through the type mapper, resolves
//! link symbols, and builds a binding-item tree that renders to source
//! text. Parsing the header, writing the two output files and compiling
//! the glue are the callers' work.
pub mod items;
pub mod model;
pub mod process;
pub mod symbols;
pub mod text;
pub mod types;
