//! Parsing of CSS sources into a syntax tree, with the import and export
//! tables of CSS modules.
pub mod diagnostics;
pub mod exports;
pub mod keyframes;
pub mod names;
pub mod parse;
pub mod swc;
