//! What a configuration says: the targets, and how each is brought about.
use vstd::prelude::*;
use crate::paths::{config_dir_of, join, path_join};
use directories::ProjectDirs;

verus! {

/// How the configuration file is found.
#[derive(Clone, Debug, PartialEq, Eq)]
pub enum ConfigFinder {
    /// In the directory that the platform assigns to the application.
    Implicit,
    /// At the path given.
    Explicit(String),
}

/// Why no configuration file could be named.
#[derive(Clone, Copy, Debug, PartialEq, Eq, Structural)]
pub enum ConfigError {
    /// The platform names no directories for the application, for want of a
    /// home directory.
    NoProjectDirs,
    /// The platform's configuration directory is no string.
    NotUnicode,
}

/// The path of the configuration file: the one given, or else the default
/// file name inside the platform's configuration directory for the
/// application, if the platform names one.
pub open spec fn config_path(finder: ConfigFinder, config_dir: Result<Seq<char>, ConfigError>) -> Result<
    Seq<char>,
    ConfigError,
> {
    match finder {
        ConfigFinder::Explicit(path) => Ok(path@),
        ConfigFinder::Implicit => match config_dir {
            Ok(dir) => Ok(path_join(dir, crate::default::CONFIG_FILE_NAME@)),
            Err(error) => Err(error),
        },
    }
}

/// What the platform answered when asked for the configuration directory, as
/// plain values.
pub open spec fn answer_view(answer: Option<Option<&str>>) -> Option<Option<Seq<char>>> {
    match answer {
        None => None,
        Some(None) => Some(None),
        Some(Some(dir)) => Some(Some(dir@)),
    }
}

/// The configuration directory that an answer of the platform amounts to:
/// the directory where it names one that is a string, and else the reason why
/// there is none.
pub open spec fn config_dir_found(answer: Option<Option<Seq<char>>>) -> Result<
    Seq<char>,
    ConfigError,
> {
    match answer {
        None => Err(ConfigError::NoProjectDirs),
        Some(None) => Err(ConfigError::NotUnicode),
        Some(Some(dir)) => Ok(dir),
    }
}

/// A path or a failure as plain values.
pub open spec fn path_view(found: Result<String, ConfigError>) -> Result<Seq<char>, ConfigError> {
    match found {
        Ok(path) => Ok(path@),
        Err(error) => Err(error),
    }
}

impl ConfigFinder {
    /// The platform's configuration directory, from what the platform
    /// answered when asked for the application's directories: `None` where it
    /// names none, `Some(None)` where the configuration directory it names is
    /// no string, and `Some(Some(dir))` where it is the string `dir`.
    pub fn config_dir_from(answer: Option<Option<&str>>) -> (found: Result<String, ConfigError>)
        ensures
            path_view(found) == config_dir_found(answer_view(answer)),
    {
        match answer {
            None => Err(ConfigError::NoProjectDirs),
            Some(None) => Err(ConfigError::NotUnicode),
            Some(Some(dir)) => Ok(dir.to_owned()),
        }
    }

    /// The platform's configuration directory for the application named
    /// `app_name`, read from the platform now: the platform is asked for the
    /// directories of that application, with no qualifier and no
    /// organization, and the result is what [`Self::config_dir_from`] makes
    /// of its answer, whichever that is.
    fn config_dir(app_name: &str) -> (found: Result<String, ConfigError>)
        ensures
            exists|answer: Option<Option<Seq<char>>>|
                path_view(found) == #[trigger] config_dir_found(answer),
    {
        match ProjectDirs::from("", "", app_name) {
            None => Self::config_dir_from(None),
            Some(project_dirs) => Self::config_dir_from(Some(config_dir_of(&project_dirs))),
        }
    }

    /// The path of the configuration file, given the platform's
    /// configuration directory for the application or the reason why there
    /// is none.
    pub fn path_in(&self, config_dir: Result<String, ConfigError>) -> (found: Result<
        String,
        ConfigError,
    >)
        ensures
            path_view(found) == config_path(*self, path_view(config_dir)),
    {
        match self {
            ConfigFinder::Explicit(path) => Ok(path.clone()),
            ConfigFinder::Implicit => match config_dir {
                Ok(dir) => Ok(join(dir.as_str(), crate::default::CONFIG_FILE_NAME)),
                Err(error) => Err(error),
            },
        }
    }

    /// The path of the configuration file for the application named
    /// `app_name`. A path that was given is the answer as it stands, and the
    /// platform is not asked. Otherwise the answer is what [`Self::path_in`]
    /// makes of the platform's configuration directory, whichever that is.
    pub fn path(&self, app_name: &str) -> (found: Result<String, ConfigError>)
        ensures
            self matches ConfigFinder::Explicit(path) ==> path_view(found) == Ok::<
                Seq<char>,
                ConfigError,
            >(path@),
            self is Implicit ==> exists|config_dir: Result<Seq<char>, ConfigError>|
                path_view(found) == config_path(*self, config_dir),
    {
        match self {
            ConfigFinder::Explicit(path) => Ok(path.clone()),
            ConfigFinder::Implicit => {
                let config_dir = Self::config_dir(app_name);
                self.path_in(config_dir)
            },
        }
    }
}

/// A list of targets, as a configuration file names them.
#[derive(Clone, Debug, PartialEq, Eq)]
pub struct Config {
    pub paths: Vec<ConceptualPath>,
}

/// One target: its path, the command that produces it, and the environment
/// that the command is given.
#[derive(Clone, Debug, PartialEq, Eq)]
pub struct ConceptualPath {
    /// The path that the command is expected to bring into existence.
    pub target: String,
    /// Name of the environment variable that tells the command its target.
    pub target_env_var: String,
    /// The executable to start.
    pub command: String,
    /// Labels; reconciliation does not read them.
    pub tags: Vec<String>,
    /// Further environment variables, name and value, each name once.
    pub env: Vec<(String, String)>,
}

/// A pair of strings as the characters each holds.
pub open spec fn pair_view(pair: (String, String)) -> (Seq<char>, Seq<char>) {
    (pair.0@, pair.1@)
}

/// A list of pairs of strings as the characters they hold.
pub open spec fn pairs_view(pairs: Seq<(String, String)>) -> Seq<(Seq<char>, Seq<char>)> {
    Seq::new(pairs.len(), |i: int| pair_view(pairs[i]))
}

/// A list of strings as the characters they hold.
pub open spec fn strings_view(strings: Seq<String>) -> Seq<Seq<char>> {
    Seq::new(strings.len(), |i: int| strings[i]@)
}

/// Whether no name is assigned twice in a list of assignments.
pub open spec fn names_unique(env: Seq<(Seq<char>, Seq<char>)>) -> bool {
    forall|i: int, j: int| 0 <= i < j < env.len() ==> env[i].0 != env[j].0
}

/// A target description as plain values.
pub struct ConceptualPathView {
    pub target: Seq<char>,
    pub target_env_var: Seq<char>,
    pub command: Seq<char>,
    pub tags: Seq<Seq<char>>,
    pub env: Seq<(Seq<char>, Seq<char>)>,
}

impl View for ConceptualPath {
    type V = ConceptualPathView;

    open spec fn view(&self) -> ConceptualPathView {
        ConceptualPathView {
            target: self.target@,
            target_env_var: self.target_env_var@,
            command: self.command@,
            tags: strings_view(self.tags@),
            env: pairs_view(self.env@),
        }
    }
}

impl ConceptualPath {
    /// Whether the description is well formed: no environment variable is
    /// named twice.
    pub open spec fn wf(&self) -> bool {
        names_unique(self@.env)
    }

    /// Checks that no environment variable is named twice.
    pub fn is_well_formed(&self) -> (ok: bool)
        ensures
            ok == self.wf(),
    {
        let n = self.env.len();
        let mut j: usize = 0;
        while j < n
            invariant
                n == self.env.len(),
                j <= n,
                forall|a: int, b: int| 0 <= a < b < j ==> self@.env[a].0 != self@.env[b].0,
            decreases n - j,
        {
            let mut i: usize = 0;
            while i < j
                invariant
                    n == self.env.len(),
                    i <= j < n,
                    forall|a: int| 0 <= a < i ==> self@.env[a].0 != self@.env[j as int].0,
                decreases j - i,
            {
                if self.env[i].0 == self.env[j].0 {
                    assert(self@.env[i as int].0 == self@.env[j as int].0);
                    return false;
                }
                i += 1;
            }
            j += 1;
        }
        true
    }
}

/// The name under which a command finds its target when a configuration
/// gives none.
pub fn default_target_env_var() -> (name: String)
    ensures
        name@ == crate::default::TARGET_ENV_VAR@,
{
    crate::default::TARGET_ENV_VAR.to_owned()
}

} // verus!
