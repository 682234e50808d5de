//! Project scaffolding: picks a template for a frontend and an optional
//! database, resolves where the template is read from, and turns its tree of
//! entries into the tree of a new project, with the project name put in place
//! of the placeholder in every text file.
pub mod cli;
pub mod error;
pub mod resolve;
pub mod selector;
pub mod substitute;
pub mod tree;
