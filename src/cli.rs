use vstd::prelude::*;

use crate::selector::{Database, Frontend};

verus! {

/// The command line of the scaffolding tool.
#[derive(Debug)]
pub struct Cli {
    pub command: Commands,
}

/// The tool's subcommands.
#[derive(Debug)]
pub enum Commands {
    /// Create a new project at `name`, from the template for `frontend` and
    /// `db`.
    New { name: String, db: Option<Database>, frontend: Frontend },
}

} // verus!
