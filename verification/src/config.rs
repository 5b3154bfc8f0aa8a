//! The server's settings and the places on disk that follow from them.

use crate::text::check_safe_file_name;
use crate::text::is_safe_file_name;
use crate::text::join_path;
use crate::text::joined_path;
use vstd::prelude::*;

verus! {

/// Where the configuration is looked for unless the command line names
/// another file.
pub const DEFAULT_CONFIG_PATH: &'static str = "config/server.toml";

/// Where the server listens.
#[derive(Debug, PartialEq, Eq)]
pub struct Server {
    pub host: String,
    pub port: u16,
}

/// Where images and catalog records are kept.
#[derive(Debug, PartialEq, Eq)]
pub struct Paths {
    pub kernels_dir: String,
    pub metadata_dir: String,
}

/// The whole configuration.
#[derive(Debug, PartialEq, Eq)]
pub struct ServerConfig {
    pub server: Server,
    pub paths: Paths,
}

/// The name of the record of the latest kernel.
pub open spec fn latest_file_name() -> Seq<char> {
    "latest.json"@
}

/// The name of the record of all versions.
pub open spec fn history_file_name() -> Seq<char> {
    "version-history.json"@
}

/// Where the image named `file_name` lies under `kernels_dir`, if the name
/// is one that stays inside that directory.
pub open spec fn kernel_path_of(kernels_dir: Seq<char>, file_name: Seq<char>) -> Option<Seq<char>> {
    if is_safe_file_name(file_name) {
        Some(joined_path(kernels_dir, file_name))
    } else {
        None
    }
}

/// Where a record is written before it takes the place of the record at
/// `path`: beside it, so that putting it in place is one renaming.
pub open spec fn temporary_path_of(path: Seq<char>) -> Seq<char> {
    path + ".tmp"@
}

/// Where a record is written before it takes the place of the record at
/// `path`.
pub fn temporary_path(path: &str) -> (temporary: String)
    ensures
        temporary@ == temporary_path_of(path@),
{
    let mut temporary = path.to_owned();
    temporary.append(".tmp");
    temporary
}

impl Clone for Server {
    fn clone(&self) -> (copy: Self)
        ensures
            copy == *self,
    {
        Server { host: self.host.clone(), port: self.port }
    }
}

impl Clone for Paths {
    fn clone(&self) -> (copy: Self)
        ensures
            copy == *self,
    {
        Paths { kernels_dir: self.kernels_dir.clone(), metadata_dir: self.metadata_dir.clone() }
    }
}

impl Clone for ServerConfig {
    fn clone(&self) -> (copy: Self)
        ensures
            copy == *self,
    {
        ServerConfig { server: self.server.clone(), paths: self.paths.clone() }
    }
}

impl Default for ServerConfig {
    /// The settings used where no configuration file can be read.
    fn default() -> (config: Self)
        ensures
            is_default_config(config),
    {
        ServerConfig {
            server: Server { host: String::from_str("0.0.0.0"), port: 8080 },
            paths: Paths {
                kernels_dir: String::from_str("./kernels"),
                metadata_dir: String::from_str("./metadata"),
            },
        }
    }
}

/// Whether `config` holds the settings used where no configuration file can
/// be read.
pub open spec fn is_default_config(config: ServerConfig) -> bool {
    &&& config.server.host@ == "0.0.0.0"@
    &&& config.server.port == 8080
    &&& config.paths.kernels_dir@ == "./kernels"@
    &&& config.paths.metadata_dir@ == "./metadata"@
}

impl ServerConfig {
    /// The settings to run with: those that were loaded, or the defaults
    /// where the configuration file is absent or could not be read.
    pub fn or_default(loaded: Option<ServerConfig>) -> (config: ServerConfig)
        ensures
            loaded matches Some(given) ==> config == given,
            loaded is None ==> is_default_config(config),
    {
        match loaded {
            Some(given) => given,
            None => ServerConfig::default(),
        }
    }
}

impl Paths {
    /// Where the image named `file_name` lies, or `None` for a name that
    /// would lead out of the image directory.
    pub fn kernel_path(&self, file_name: &str) -> (path: Option<String>)
        ensures
            path is Some <==> is_safe_file_name(file_name@),
            path matches Some(p) ==> Some(p@) == kernel_path_of(self.kernels_dir@, file_name@),
    {
        if check_safe_file_name(file_name) {
            Some(join_path(self.kernels_dir.as_str(), file_name))
        } else {
            None
        }
    }

    /// Where the record of the latest kernel lies.
    pub fn latest_path(&self) -> (path: String)
        ensures
            path@ == joined_path(self.metadata_dir@, latest_file_name()),
    {
        join_path(self.metadata_dir.as_str(), "latest.json")
    }

    /// Where the record of all versions lies.
    pub fn history_path(&self) -> (path: String)
        ensures
            path@ == joined_path(self.metadata_dir@, history_file_name()),
    {
        join_path(self.metadata_dir.as_str(), "version-history.json")
    }
}

} // verus!
