//! A grammar workbench core: compiles pest grammar source through the
//! syntactic, validation, consumption and optimization stages, indexes every
//! rule-name occurrence in the grammar text, and runs the compiled rule set
//! against input text to produce a labeled token tree.

pub mod backend;
pub mod engine;
pub mod event;
pub mod files;
pub mod location;
pub mod syntax;
pub mod tree;
