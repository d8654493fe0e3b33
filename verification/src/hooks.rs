//! User-configured registry overrides and the default public registry
//! endpoints.

use core::marker::PhantomData;
use vstd::prelude::*;

use crate::collection::Distro;

verus! {

/// A user-configured resolver that maps a relative path to an absolute URL
/// under its base, in place of the public registry.
pub struct Hook {
    pub base: String,
}

/// The URL a hook produces for a relative path.
pub open spec fn spec_hook_url(base: Seq<char>, path: Seq<char>) -> Seq<char> {
    base + "/"@ + path
}

impl Hook {
    /// Resolves a relative path to an absolute URL under this hook's base.
    pub fn resolve(&self, path: &str) -> (r: String)
        ensures
            r@ == spec_hook_url(self.base@, path@),
    {
        let mut s = self.base.clone();
        s.append("/");
        s.append(path);
        proof {
            assert(s@ =~= spec_hook_url(self.base@, path@));
        }
        s
    }
}

/// Optional per-tool-kind overrides: one hook for the latest-version
/// endpoint and one for the index endpoint, each independently optional.
pub struct ToolHooks<D: Distro> {
    pub latest: Option<Hook>,
    pub index: Option<Hook>,
    pub phantom: PhantomData<D>,
}

/// The `latest` hook of an optional hook set.
pub open spec fn latest_hook_of<D: Distro>(hooks: Option<ToolHooks<D>>) -> Option<Hook> {
    match hooks {
        Some(th) => th.latest,
        None => None,
    }
}

/// The `index` hook of an optional hook set.
pub open spec fn index_hook_of<D: Distro>(hooks: Option<ToolHooks<D>>) -> Option<Hook> {
    match hooks {
        Some(th) => th.index,
        None => None,
    }
}

/// The URL to use for an endpoint: the hook's answer when a hook is given,
/// the public default otherwise.
pub open spec fn spec_resolve_url(hook: Option<Hook>, path: Seq<char>, default: Seq<char>) -> Seq<
    char,
> {
    match hook {
        Some(h) => spec_hook_url(h.base@, path),
        None => default,
    }
}

/// Resolves an endpoint URL from an optional hook and the public default.
pub fn resolve_url(hook: &Option<Hook>, path: &str, default: &String) -> (r: String)
    ensures
        r@ == spec_resolve_url(*hook, path@, default@),
{
    match hook {
        Some(h) => h.resolve(path),
        None => default.clone(),
    }
}

/// The registry endpoints, resolved once at startup; the defaults are the
/// public registries.
pub struct RegistryConfig {
    pub node_index_url: String,
    pub yarn_index_url: String,
    pub yarn_latest_url: String,
    pub package_registry_root: String,
}

impl RegistryConfig {
    /// The public registry endpoints.
    pub fn public() -> (r: RegistryConfig)
        ensures
            r.node_index_url@ == "https://nodejs.org/dist/index.json"@,
            r.yarn_index_url@ == "https://api.github.com/repos/yarnpkg/yarn/releases"@,
            r.yarn_latest_url@ == "https://yarnpkg.com/latest-version"@,
            r.package_registry_root@ == "https://registry.npmjs.org"@,
    {
        RegistryConfig {
            node_index_url: String::from_str("https://nodejs.org/dist/index.json"),
            yarn_index_url: String::from_str("https://api.github.com/repos/yarnpkg/yarn/releases"),
            yarn_latest_url: String::from_str("https://yarnpkg.com/latest-version"),
            package_registry_root: String::from_str("https://registry.npmjs.org"),
        }
    }
}

} // verus!
