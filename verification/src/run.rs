//! Command dispatch for the package manager: given the resolved platform,
//! the interception policy and the invocation's argument vector, decide
//! whether to run the managed binary, refuse a global install, or pass the
//! invocation through to the system tool.

use vstd::prelude::*;

use crate::error::ErrorDetails;
use crate::text::string_eq;

verus! {

/// A token that looks like a flag: it begins with `-`.
pub open spec fn is_flag_arg(s: Seq<char>) -> bool {
    s.len() > 0 && s[0] == '-'
}

/// A token requesting global scope.
pub open spec fn is_global_flag(s: Seq<char>) -> bool {
    s == "-g"@ || s == "--global"@
}

/// A global-scope flag stands somewhere in the argument vector.
pub open spec fn has_global_flag(args: Seq<Seq<char>>) -> bool {
    exists|i: int| 0 <= i < args.len() && is_global_flag(args[i])
}

/// The position of the first token at or after `from` that does not look
/// like a flag.
pub open spec fn first_positional(args: Seq<Seq<char>>, from: int) -> Option<int>
    decreases args.len() - from,
{
    if from < 0 || from >= args.len() {
        None
    } else if !is_flag_arg(args[from]) {
        Some(from)
    } else {
        first_positional(args, from + 1)
    }
}

/// The accepted spellings of the install-family subcommand, including the
/// tolerated misspelling.
pub open spec fn is_install_spelling(s: Seq<char>) -> bool {
    s == "install"@ || s == "i"@ || s == "isntall"@ || s == "add"@
}

/// The mathematical model of the interception check's outcome.
pub enum CommandArgModel {
    /// The invocation is a global install of the given package (the name may
    /// be absent, as in a bare `install -g`).
    GlobalAdd(Option<Seq<char>>),
    NotGlobalAdd,
}

/// The interception decision: a global install is recognized exactly when a
/// global-scope flag stands anywhere in the arguments and the first
/// non-flag token after the program name is an install-family spelling; the
/// package is then the following non-flag token.
pub open spec fn spec_check_npm_install(args: Seq<Seq<char>>) -> CommandArgModel {
    if !has_global_flag(args) {
        CommandArgModel::NotGlobalAdd
    } else {
        match first_positional(args, 1) {
            None => CommandArgModel::NotGlobalAdd,
            Some(ci) => if is_install_spelling(args[ci]) {
                CommandArgModel::GlobalAdd(
                    match first_positional(args, ci + 1) {
                        None => None,
                        Some(pi) => Some(args[pi]),
                    },
                )
            } else {
                CommandArgModel::NotGlobalAdd
            },
        }
    }
}

/// The outcome of scanning an invocation for a global install.
#[derive(Debug, PartialEq, Eq)]
pub enum CommandArg {
    /// A global install of the given package.
    GlobalAdd(Option<String>),
    NotGlobalAdd,
}

/// Whether the executable outcome realizes the model.
pub open spec fn command_arg_matches(r: CommandArg, m: CommandArgModel) -> bool {
    match (r, m) {
        (CommandArg::NotGlobalAdd, CommandArgModel::NotGlobalAdd) => true,
        (CommandArg::GlobalAdd(p), CommandArgModel::GlobalAdd(q)) => match (p, q) {
            (Option::None, Option::None) => true,
            (Option::Some(ps), Option::Some(qs)) => ps@ == qs,
            _ => false,
        },
        _ => false,
    }
}

/// Whether a token looks like a flag.
fn is_flag(s: &String) -> (r: bool)
    ensures
        r == is_flag_arg(s@),
{
    let n = s.as_str().unicode_len();
    if n == 0 {
        false
    } else {
        s.as_str().get_char(0) == '-'
    }
}

/// Finds the first token at or after `from` that does not look like a flag.
fn find_positional(args: &Vec<String>, from: usize) -> (r: Option<usize>)
    ensures
        match r {
            Some(i) => first_positional(args.deep_view(), from as int) == Some(i as int) && from
                <= i < args.len(),
            None => first_positional(args.deep_view(), from as int) is None,
        },
{
    let ghost av = args.deep_view();
    let n = args.len();
    let mut j = from;
    while j < n
        invariant
            from <= j,
            n == args.len(),
            av == args.deep_view(),
            av.len() == n,
            first_positional(av, from as int) == first_positional(av, j as int),
        decreases n - j,
    {
        proof {
            assert(av[j as int] == args@[j as int]@);
        }
        if !is_flag(&args[j]) {
            return Some(j);
        }
        j += 1;
    }
    None
}

/// Scans the argument vector (the program name first) for a global install
/// of the package manager's install family.
pub fn check_npm_install(args: &Vec<String>) -> (r: CommandArg)
    ensures
        command_arg_matches(r, spec_check_npm_install(args.deep_view())),
{
    let ghost av = args.deep_view();
    let n = args.len();
    let mut found = false;
    let mut i: usize = 0;
    while i < n
        invariant
            0 <= i <= n,
            n == args.len(),
            av == args.deep_view(),
            av.len() == n,
            found ==> has_global_flag(av),
            !found ==> forall|k: int| 0 <= k < i ==> !is_global_flag(av[k]),
        decreases n - i,
    {
        proof {
            assert(av[i as int] == args@[i as int]@);
        }
        if string_eq(&args[i], "-g") || string_eq(&args[i], "--global") {
            found = true;
        }
        i += 1;
    }
    if !found {
        return CommandArg::NotGlobalAdd;
    }
    match find_positional(args, 1) {
        None => CommandArg::NotGlobalAdd,
        Some(ci) => {
            proof {
                assert(av[ci as int] == args@[ci as int]@);
            }
            let cmd = &args[ci];
            if string_eq(cmd, "install") || string_eq(cmd, "i") || string_eq(cmd, "isntall")
                || string_eq(cmd, "add") {
                match find_positional(args, ci + 1) {
                    None => CommandArg::GlobalAdd(None),
                    Some(pi) => {
                        proof {
                            assert(av[pi as int] == args@[pi as int]@);
                        }
                        CommandArg::GlobalAdd(Some(args[pi].clone()))
                    },
                }
            } else {
                CommandArg::NotGlobalAdd
            }
        },
    }
}

/// A checked-out toolchain image for the current project: the directory of
/// its executables, to be prepended to the search path.
pub struct PlatformImage {
    pub path: String,
}

/// How an invocation of the tool should run.
#[derive(Debug, PartialEq, Eq)]
pub enum ToolCommand {
    /// Run the managed binary, with the image's directory on the search
    /// path.
    Direct { tool: String, path: String },
    /// Run the same-named system tool, with a deferred error explaining why
    /// no managed tool ran, usable if the system tool is itself missing.
    Passthrough { tool: String, error: ErrorDetails },
}

/// Whether the intercepted package carried by the error matches the model's.
pub open spec fn package_field_matches(package: Option<String>, q: Option<Seq<char>>) -> bool {
    match (package, q) {
        (Option::None, Option::None) => true,
        (Option::Some(ps), Option::Some(qs)) => ps@ == qs,
        _ => false,
    }
}

/// Decides how an invocation of the package manager runs. Platform
/// resolution comes first: with no platform the invocation passes through
/// to the system tool, whatever the arguments. With a platform, and with
/// interception enabled, a recognized global install is refused with a
/// typed error carrying the package name; otherwise the managed binary
/// runs against the image's path.
pub fn command(platform: &Option<PlatformImage>, intercept_globals: bool, args: &Vec<String>) -> (r:
    Result<ToolCommand, ErrorDetails>)
    ensures
        match *platform {
            None => r matches Ok(tc) && tc matches ToolCommand::Passthrough { tool, error }
                && tool@ == "npm"@ && error == ErrorDetails::NoPlatform,
            Some(img) => {
                let m = spec_check_npm_install(args.deep_view());
                if intercept_globals && m matches CommandArgModel::GlobalAdd(_) {
                    r matches Err(e) && e matches ErrorDetails::NoGlobalInstalls { package } && (
                    m matches CommandArgModel::GlobalAdd(q) && package_field_matches(package, q))
                } else {
                    r matches Ok(tc) && tc matches ToolCommand::Direct { tool, path } && tool@
                        == "npm"@ && path@ == img.path@
                }
            },
        },
{
    match platform {
        None => Ok(
            ToolCommand::Passthrough {
                tool: String::from_str("npm"),
                error: ErrorDetails::NoPlatform,
            },
        ),
        Some(img) => {
            if intercept_globals {
                match check_npm_install(args) {
                    CommandArg::GlobalAdd(package) => {
                        return Err(ErrorDetails::NoGlobalInstalls { package });
                    },
                    CommandArg::NotGlobalAdd => {},
                }
            }
            Ok(ToolCommand::Direct { tool: String::from_str("npm"), path: img.path.clone() })
        },
    }
}

} // verus!
