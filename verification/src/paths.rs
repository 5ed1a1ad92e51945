//! Paths as this library handles them: strings, joined by the platform's rule.
use vstd::prelude::*;
use directories::ProjectDirs;
use std::path::Path;

verus! {

/// The path of the entry `name` inside the directory `dir`, by the rule of
/// the platform. The rule reads the two strings and nothing else.
pub uninterp spec fn path_join(dir: Seq<char>, name: Seq<char>) -> Seq<char>;

/// `std::path::Path::join` on the paths that two strings name. Claimed: the
/// result is the joined path, a function of the two strings alone. Both being
/// strings, so is what joins them, and the conversion back loses nothing.
#[verifier::external_body]
pub(crate) fn join(dir: &str, name: &str) -> (joined: String)
    ensures
        joined@ == path_join(dir@, name@),
{
    Path::new(dir).join(name).to_string_lossy().into_owned()
}

/// The directories that a platform assigns to a project.
#[verifier::external_type_specification]
#[verifier::external_body]
pub struct ExProjectDirs(ProjectDirs);

/// `directories::ProjectDirs::from`. The answer depends on the platform and
/// on the environment of the process, so nothing is claimed of it.
pub assume_specification[ ProjectDirs::from ](
    qualifier: &str,
    organization: &str,
    application: &str,
) -> Option<ProjectDirs>;

/// `directories::ProjectDirs::config_dir`, as a string where the path is
/// one. Nothing is claimed of it.
#[verifier::external_body]
pub(crate) fn config_dir_of(project_dirs: &ProjectDirs) -> Option<&str> {
    project_dirs.config_dir().to_str()
}

} // verus!
