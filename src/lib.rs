//! Diagnostics and fixes for one source file: syntax errors, two style
//! checks over the syntax tree, and the problems that the module model reports.
pub mod text_edit;
pub mod diagnostic;
pub mod syntax;
pub mod checks;
pub mod semantic;
pub mod collector;
pub mod laws;

