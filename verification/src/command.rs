//! The install command: which tool the user asked to install, with the
//! version requirement parsed from the command line.

use vstd::prelude::*;

use crate::requirement::{parseable, parses_to, VersionSpec};
use crate::text::str_eq;

verus! {

/// A parsed install invocation.
#[derive(Debug, PartialEq, Eq)]
pub enum Install {
    /// Show the command's usage.
    Help,
    /// Install the Node runtime.
    Node(VersionSpec),
    /// Install the Yarn package manager.
    Yarn(VersionSpec),
    /// Install an arbitrary package.
    Other { name: String, version: VersionSpec },
}

impl Install {
    /// The help request.
    pub fn help() -> (r: Install)
        ensures
            r is Help,
    {
        Install::Help
    }

    /// Parses the tool name and version requirement of an install
    /// invocation; `None` exactly when the requirement text denotes nothing.
    pub fn parse(tool: &str, version: &str) -> (r: Option<Install>)
        ensures
            match r {
                Some(inst) => match inst {
                    Install::Node(vs) => tool@ == "node"@ && parses_to(version@, vs),
                    Install::Yarn(vs) => tool@ == "yarn"@ && parses_to(version@, vs),
                    Install::Other { name, version: vs } => tool@ != "node"@ && tool@ != "yarn"@
                        && name@ == tool@ && parses_to(version@, vs),
                    Install::Help => false,
                },
                None => !parseable(version@),
            },
    {
        let vs = match VersionSpec::parse(version) {
            Some(vs) => vs,
            None => {
                return None;
            },
        };
        if str_eq(tool, "node") {
            Some(Install::Node(vs))
        } else if str_eq(tool, "yarn") {
            Some(Install::Yarn(vs))
        } else {
            Some(Install::Other { name: tool.to_owned(), version: vs })
        }
    }
}

} // verus!
