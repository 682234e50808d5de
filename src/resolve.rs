use vstd::prelude::*;
use vstd::string::StringExecFns;

use crate::error::ScaffoldError;

verus! {

/// Directory, relative to the working directory, that holds the templates
/// when they are read from disk.
pub const TEMPLATES_ROOT: &'static str = "templates";

/// Where the entries of a template are read from.
#[derive(Debug, PartialEq, Eq)]
pub enum TemplateSource {
    /// A sub-tree of the bundle built into the program, by name.
    Embedded { name: String },
    /// A directory on disk.
    OnDisk { path: String },
}

/// The directory on disk where a template is looked for.
pub open spec fn template_dir_of(identifier: Seq<char>) -> Seq<char> {
    TEMPLATES_ROOT@ + "/"@ + identifier
}

/// The directory on disk where the template `identifier` is looked for.
pub fn template_dir(identifier: &str) -> (r: String)
    ensures
        r@ == template_dir_of(identifier@),
{
    let r = String::from_str(TEMPLATES_ROOT);
    let r = r.concat("/");
    r.concat(identifier)
}

/// Picks the source of a template: the embedded bundle when it holds the
/// template, else its directory on disk when that exists (`on_disk`), else
/// none, with an error that names the directory probed.
pub fn resolve_source(identifier: &str, in_bundle: bool, on_disk: bool) -> (r: Result<
    TemplateSource,
    ScaffoldError,
>)
    ensures
        in_bundle ==> (r matches Ok(TemplateSource::Embedded { name }) && name@ == identifier@),
        !in_bundle && on_disk ==> (r matches Ok(TemplateSource::OnDisk { path })
            && path@ == template_dir_of(identifier@)),
        !in_bundle && !on_disk ==> (r matches Err(
            ScaffoldError::TemplateNotFound { identifier: id, probed_path: p },
        ) && id@ == identifier@ && p@ == template_dir_of(identifier@)),
{
    if in_bundle {
        Ok(TemplateSource::Embedded { name: identifier.to_owned() })
    } else if on_disk {
        Ok(TemplateSource::OnDisk { path: template_dir(identifier) })
    } else {
        Err(
            ScaffoldError::TemplateNotFound {
                identifier: identifier.to_owned(),
                probed_path: template_dir(identifier),
            },
        )
    }
}

/// The final component of a path, when it has one.
pub uninterp spec fn file_name_of(path: Seq<char>) -> Option<Seq<char>>;

/// Relies on std::path::Path::file_name: the final component of the path, or
/// nothing when the path ends in `..` or is a root; it depends on the text of
/// the path alone.
#[verifier::external_body]
fn path_file_name(path: &str) -> (r: Option<String>)
    ensures
        match r {
            Some(n) => file_name_of(path@) == Some(n@),
            None => file_name_of(path@) is None,
        },
{
    match std::path::Path::new(path).file_name() {
        Some(n) => Some(n.to_string_lossy().into_owned()),
        None => None,
    }
}

/// The project name carried by a path's final component, or the error that
/// reports a path without one.
pub fn name_from_component(path: &str, component: Option<String>) -> (r: Result<
    String,
    ScaffoldError,
>)
    ensures
        match component {
            Some(n) => r matches Ok(m) && m@ == n@,
            None => r matches Err(ScaffoldError::InvalidProjectName { input }) && input@ == path@,
        },
{
    match component {
        Some(n) => Ok(n),
        None => Err(ScaffoldError::InvalidProjectName { input: path.to_owned() }),
    }
}

/// The name of the project to be created at `path`: its final component.
pub fn project_name(path: &str) -> (r: Result<String, ScaffoldError>)
    ensures
        match file_name_of(path@) {
            Some(n) => r matches Ok(m) && m@ == n,
            None => r matches Err(ScaffoldError::InvalidProjectName { input }) && input@ == path@,
        },
{
    let component = path_file_name(path);
    name_from_component(path, component)
}

} // verus!
