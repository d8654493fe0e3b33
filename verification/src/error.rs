//! The error taxonomy of the toolchain manager: every resolution, fetch and
//! dispatch step reports failure through one of these variants.

use vstd::prelude::*;

verus! {

/// A typed failure of a resolution, fetch, cache or dispatch step.
#[derive(Debug, Clone, PartialEq, Eq)]
pub enum ErrorDetails {
    /// No Node version satisfied the request; `matching` is the
    /// human-readable form of what was requested.
    NodeVersionNotFound { matching: String },
    /// No Yarn version satisfied the request.
    YarnVersionNotFound { matching: String },
    /// No version of the named package satisfied the request.
    PackageVersionNotFound { name: String, matching: String },
    /// Fetching a registry index over the network failed.
    RegistryFetchError { tool: String, from_url: String },
    /// Fetching the latest-version endpoint for Yarn failed.
    YarnLatestFetchError { from_url: String },
    /// Fetching the metadata of a package failed.
    PackageMetadataFetchError { from_url: String },
    /// A registry response could not be parsed into the typed index.
    ParseMetadataError { tool: String },
    /// Writing a cache file failed.
    CacheWriteError { file: String },
    /// A directory could not be created.
    CreateDirError { dir: String },
    /// A path that should have a containing directory does not.
    ContainingDirError { path: String },
    /// A directory could not be deleted.
    DeleteDirectoryError { directory: String },
    /// A global package install was intercepted; carries the package name
    /// when one was given on the command line.
    NoGlobalInstalls { package: Option<String> },
    /// No managed platform could be resolved for the current project, so the
    /// invocation falls through to the system tool.
    NoPlatform,
}

/// Builds the error reported when deleting a directory fails.
pub fn delete_dir_error(directory: &str) -> (r: ErrorDetails)
    ensures
        r matches ErrorDetails::DeleteDirectoryError { directory: d } && d@ == directory@,
{
    ErrorDetails::DeleteDirectoryError { directory: directory.to_owned() }
}

/// Builds the error reported when a registry index cannot be fetched.
pub fn registry_fetch_error(tool: &str, from_url: &str) -> (r: ErrorDetails)
    ensures
        r matches ErrorDetails::RegistryFetchError { tool: t, from_url: u } && t@ == tool@
            && u@ == from_url@,
{
    ErrorDetails::RegistryFetchError { tool: tool.to_owned(), from_url: from_url.to_owned() }
}

} // verus!
