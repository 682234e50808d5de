use vstd::prelude::*;
use vstd::string::StringExecFns;

verus! {

/// Every way in which scaffolding a project can fail.
#[derive(Debug, PartialEq, Eq)]
pub enum ScaffoldError {
    /// Neither the embedded bundle nor the templates directory on disk holds
    /// the template.
    TemplateNotFound { identifier: String, probed_path: String },
    /// The target directory is already there; nothing was written.
    TargetAlreadyExists { path: String },
    /// Creating a directory or writing a file failed.
    IoFailure { path: String, cause: String },
    /// The project path has no final component to name the project by.
    InvalidProjectName { input: String },
}

/// The message shown to the user for an error.
pub open spec fn message_of(e: &ScaffoldError) -> Seq<char> {
    match e {
        ScaffoldError::TemplateNotFound { identifier, probed_path } => "Template '"@ + identifier@
            + "' not found in embedded assets or at '"@ + probed_path@ + "'!"@,
        ScaffoldError::TargetAlreadyExists { path } => "Directory '"@ + path@
            + "' already exists."@,
        ScaffoldError::IoFailure { path, cause } => "Failed to write '"@ + path@ + "': "@
            + cause@,
        ScaffoldError::InvalidProjectName { input } => "Invalid project path: "@ + input@,
    }
}

impl ScaffoldError {
    /// The human-readable message for this error.
    pub fn message(&self) -> (r: String)
        ensures
            r@ == message_of(self),
    {
        match self {
            ScaffoldError::TemplateNotFound { identifier, probed_path } => {
                let r = String::from_str("Template '");
                let r = r.concat(identifier.as_str());
                let r = r.concat("' not found in embedded assets or at '");
                let r = r.concat(probed_path.as_str());
                r.concat("'!")
            },
            ScaffoldError::TargetAlreadyExists { path } => {
                let r = String::from_str("Directory '");
                let r = r.concat(path.as_str());
                r.concat("' already exists.")
            },
            ScaffoldError::IoFailure { path, cause } => {
                let r = String::from_str("Failed to write '");
                let r = r.concat(path.as_str());
                let r = r.concat("': ");
                r.concat(cause.as_str())
            },
            ScaffoldError::InvalidProjectName { input } => {
                let r = String::from_str("Invalid project path: ");
                r.concat(input.as_str())
            },
        }
    }
}

} // verus!
