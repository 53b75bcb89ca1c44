//! Managed repositories as the batch orchestrator sees them: a workspace
//! symlink, its real location, and the identity read off that location.
//! Walking the workspace directory is input/output and happens outside the
//! library; decomposing a resolved path is decided here.

use vstd::prelude::*;

verus! {

use crate::github::RepoInfo;
use crate::mure_error::{Error, ErrorModel};
use crate::text::{split_non_empty, split_non_empty_spec};
use vstd::string::StringExecFns;

/// One managed repository: the symlink path inside the workspace, the real
/// path it resolves to, and the identity taken from that real path.
pub struct MureRepo {
    pub relative_path: String,
    pub absolute_path: String,
    pub repo: RepoInfo,
}

/// Builds a managed-repository record from a symlink path and the real
/// path it resolves to. The real path must sit at the expected depth: its
/// last three segments are the host, the owner and the repository name.
pub fn mure_repo_from_paths(relative_path: &str, absolute_path: &str) -> (r: Result<
    MureRepo,
    Error,
>)
    ensures
        ({
            let segs = split_non_empty_spec(absolute_path@, '/');
            &&& segs.len() == 0 ==> (r matches Err(e) && e@ == ErrorModel::Message(
                "failed to get repo name"@,
            ))
            &&& 1 <= segs.len() < 3 ==> (r matches Err(e) && e@ == ErrorModel::Message(
                "failed to get owner or domain"@,
            ))
            &&& segs.len() >= 3 ==> (r matches Ok(m) && m.relative_path@ == relative_path@
                && m.absolute_path@ == absolute_path@ && m.repo.domain@ == segs[segs.len() - 3]
                && m.repo.owner@ == segs[segs.len() - 2] && m.repo.repo@ == segs[segs.len() - 1])
        }),
{
    let segs = split_non_empty(absolute_path, '/');
    if segs.len() == 0 {
        Err(Error::from_str("failed to get repo name"))
    } else if segs.len() < 3 {
        Err(Error::from_str("failed to get owner or domain"))
    } else {
        let n = segs.len();
        let repo = RepoInfo {
            domain: segs[n - 3].clone(),
            owner: segs[n - 2].clone(),
            repo: segs[n - 1].clone(),
        };
        Ok(
            MureRepo {
                relative_path: relative_path.to_owned(),
                absolute_path: absolute_path.to_owned(),
                repo,
            },
        )
    }
}

/// The one line the listing prints for a repository, depending on whether
/// the full name and/or the path was asked for.
pub fn list_line(repo: &MureRepo, path: bool, full: bool) -> (r: String)
    ensures
        full && path ==> r@ == repo.absolute_path@,
        full && !path ==> r@ == repo.repo.owner@ + "/"@ + repo.repo.repo@,
        !full && path ==> r@ == repo.relative_path@,
        !full && !path ==> r@ == repo.repo.repo@,
{
    if full && path {
        repo.absolute_path.clone()
    } else if full {
        repo.repo.name_with_owner()
    } else if path {
        repo.relative_path.clone()
    } else {
        repo.repo.repo.clone()
    }
}

} // verus!
