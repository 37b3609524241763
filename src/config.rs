//! User settings and the directories derived from them.

use crate::error::{ErrorView, NutError};
use crate::text::{join_path, owned, path_join};
use vstd::prelude::*;

verus! {

/// The user's settings: where workspaces live and where the mirror cache lives.
#[derive(Debug, Clone)]
pub struct NutConfig {
    pub workspace_dir: Option<String>,
    pub cache_dir: Option<String>,
}

impl Default for NutConfig {
    fn default() -> (r: NutConfig)
        ensures
            r.workspace_dir is None,
            r.cache_dir is None,
    {
        NutConfig { workspace_dir: None, cache_dir: None }
    }
}

/// The cache directory used when none is configured: `<home>/.cache/nut`,
/// with `/tmp` standing in for an unknown home.
pub open spec fn default_cache_path(home: Option<Seq<char>>) -> Seq<char> {
    let base = match home {
        Some(h) => h,
        None => "/tmp"@,
    };
    join_path(join_path(base, ".cache"@), "nut"@)
}

impl NutConfig {
    /// The configured workspace directory.
    pub fn get_workspace_dir(&self) -> (r: Result<String, NutError>)
        ensures
            self.workspace_dir matches Some(d) ==> (r matches Ok(s) && s@ == d@),
            self.workspace_dir is None ==> (r matches Err(e) && e@ == ErrorView::WorkspaceDirectoryNotConfigured),
    {
        match &self.workspace_dir {
            Some(d) => Ok(d.clone()),
            None => Err(NutError::WorkspaceDirectoryNotConfigured),
        }
    }

    /// The configured cache directory, else the default under `home` (the
    /// user's home directory, if known).
    pub fn get_cache_dir(&self, home: &Option<String>) -> (r: String)
        ensures
            self.cache_dir matches Some(d) ==> r@ == d@,
            self.cache_dir is None ==> r@ == default_cache_path(match home {
                Some(h) => Some(h@),
                None => None,
            }),
    {
        match &self.cache_dir {
            Some(d) => d.clone(),
            None => Self::default_cache_dir(home),
        }
    }

    /// `<home>/.cache/nut`, with `/tmp` for an unknown home.
    pub fn default_cache_dir(home: &Option<String>) -> (r: String)
        ensures
            r@ == default_cache_path(match home {
                Some(h) => Some(h@),
                None => None,
            }),
    {
        let base = match home {
            Some(h) => h.clone(),
            None => owned("/tmp"),
        };
        let cache = path_join(base.as_str(), ".cache");
        path_join(cache.as_str(), "nut")
    }
}

} // verus!

verus! {

impl NutConfig {
    /// The settings file under the home directory `home`: `<home>/.nut.json`.
    pub fn config_file_path(home: &str) -> (r: String)
        ensures
            r@ == join_path(home@, ".nut.json"@),
    {
        path_join(home, ".nut.json")
    }
}

} // verus!
