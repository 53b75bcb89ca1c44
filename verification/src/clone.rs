//! The cloning side of the interpreter: what a finished clone reports,
//! gated by verbosity. Creating directories, the clone subprocess and the
//! workspace symlink are input/output and happen outside the library.

use vstd::prelude::*;

verus! {

use crate::config::ConfigSupport;
use crate::git::RawGitCommandOutput;
use crate::verbosity::Verbosity;
use vstd::string::StringExecFns;

/// What a finished clone prints: nothing when quiet, the tool's progress
/// text (its stderr) normally, and its stdout too when verbose.
pub open spec fn clone_report_spec(raw: crate::git::RawOutputModel, verbosity: Verbosity) -> Seq<
    Seq<char>,
> {
    match verbosity {
        Verbosity::Quiet => Seq::empty(),
        Verbosity::Normal => seq![raw.stderr],
        Verbosity::Verbose => seq![raw.stderr, raw.stdout],
    }
}

/// The lines a finished clone reports, by verbosity.
pub fn clone_report_lines(raw: &RawGitCommandOutput, verbosity: Verbosity) -> (r: Vec<String>)
    ensures
        r.deep_view() == clone_report_spec(raw@, verbosity),
{
    let mut r: Vec<String> = Vec::new();
    match verbosity {
        Verbosity::Quiet => {},
        Verbosity::Normal => {
            r.push(raw.stderr.clone());
        },
        Verbosity::Verbose => {
            r.push(raw.stderr.clone());
            r.push(raw.stdout.clone());
        },
    }
    proof {
        assert(r.deep_view() =~= clone_report_spec(raw@, verbosity));
    }
    r
}

/// Where a clone goes: the repository's identity, its place in the
/// content-addressed store, the directory the clone runs in, and the
/// workspace path that will link to it. `base` is the expanded workspace
/// root all three paths share.
pub struct ClonePlan {
    pub base: String,
    pub repo: crate::github::RepoInfo,
    pub store_path: String,
    pub parent_path: String,
    pub work_path: String,
}

/// Decides everything about a clone from the configuration and the URL:
/// a URL matching no known shape is rejected; otherwise the three paths
/// are laid out under one expanded workspace root.
pub fn clone_plan(config: &crate::config::Config, repo_url: &str) -> (r: Result<
    ClonePlan,
    crate::mure_error::Error,
>)
    ensures
        crate::github::parse_url_spec(repo_url@) is None ==> (r matches Err(e) && e@
            == crate::mure_error::ErrorModel::Message("invalid repo url"@)),
        (crate::github::parse_url_spec(repo_url@) matches Some((domain, owner, repo)) ==> (
        r matches Ok(plan) && {
            &&& plan.repo.domain@ == domain
            &&& plan.repo.owner@ == owner
            &&& plan.repo.repo@ == repo
            &&& plan.store_path@ == plan.base@ + "/repo/"@ + domain + "/"@ + owner + "/"@ + repo
            &&& plan.parent_path@ == plan.base@ + "/repo/"@ + domain + "/"@ + owner
            &&& plan.work_path@ == plan.base@ + "/"@ + repo
            &&& (crate::config::no_tilde(config.core.base_dir@) ==> plan.base@
                == config.core.base_dir@)
        })),
{
    let parsed = crate::github::RepoInfo::parse_url(repo_url);
    let repo_info = match parsed {
        Some(info) => info,
        None => {
            return Err(crate::mure_error::Error::from_str("invalid repo url"));
        },
    };
    let base = config.base_path();
    let mut parent_path = base.clone();
    parent_path.append("/repo/");
    parent_path.append(repo_info.domain.as_str());
    parent_path.append("/");
    parent_path.append(repo_info.owner.as_str());
    let mut store_path = parent_path.clone();
    store_path.append("/");
    store_path.append(repo_info.repo.as_str());
    let mut work_path = base.clone();
    work_path.append("/");
    work_path.append(repo_info.repo.as_str());
    Ok(ClonePlan { base, repo: repo_info, store_path, parent_path, work_path })
}

} // verus!
