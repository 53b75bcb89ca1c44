//! The default-branch resolver's interpretation layer. The hosting
//! provider's CLI is queried outside the library; what its answer means is
//! decided here.

use vstd::prelude::*;

verus! {

use crate::command_wrapper::RawCommandOutput;
use crate::mure_error::{Error, ErrorModel};
use vstd::string::StringExecFns;

/// The argument vector that asks the provider's CLI for the default branch.
pub fn default_branch_args() -> (r: Vec<String>)
    ensures
        r.deep_view() == seq![
            "repo"@,
            "view"@,
            "--json"@,
            "defaultBranchRef"@,
            "-t"@,
            "{{.defaultBranchRef.name}}"@,
        ],
{
    let mut r: Vec<String> = Vec::new();
    r.push("repo".to_owned());
    r.push("view".to_owned());
    r.push("--json".to_owned());
    r.push("defaultBranchRef".to_owned());
    r.push("-t".to_owned());
    r.push("{{.defaultBranchRef.name}}".to_owned());
    proof {
        assert(r.deep_view() =~= seq![
            "repo"@,
            "view"@,
            "--json"@,
            "defaultBranchRef"@,
            "-t"@,
            "{{.defaultBranchRef.name}}"@,
        ]);
    }
    r
}

/// Reads the provider CLI's answer: on success the branch name is exactly
/// what the command printed; on failure the command's stderr is the error.
pub fn interpret_default_branch(raw: RawCommandOutput) -> (r: Result<String, Error>)
    ensures
        raw.status == 0 ==> (r matches Ok(b) && b@ == raw.stdout@),
        raw.status != 0 ==> (r matches Err(e) && e@ == ErrorModel::Message(raw.stderr@)),
{
    if raw.status == 0 {
        Ok(raw.stdout)
    } else {
        Err(Error::from_str(raw.stderr.as_str()))
    }
}

} // verus!
