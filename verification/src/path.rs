//! The shell shim that lets a shell change directory into a managed
//! repository by name.

use vstd::prelude::*;

verus! {

use crate::config::{Config, ConfigSupport};
use vstd::string::StringExecFns;

/// The shim function text for a given binary name and function name.
pub open spec fn shims_text(bin_name: Seq<char>, fn_name: Seq<char>) -> Seq<char> {
    "function "@ + fn_name + "() { local p=$("@ + bin_name
        + " path \"$1\") && cd \"$p\" }\n"@
}

/// A shell function that resolves a repository path and changes into it.
pub fn shell_shims_for_cd_directly(bin_name: &str, fn_name: &str) -> (r: String)
    ensures
        r@ == shims_text(bin_name@, fn_name@),
{
    let mut r = "function ".to_owned();
    r.append(fn_name);
    r.append("() { local p=$(");
    r.append(bin_name);
    r.append(" path \"$1\") && cd \"$p\" }\n");
    r
}

/// The shim for this tool, under the configured shim name.
pub fn shell_shims(config: &Config) -> (r: String)
    ensures
        r@ == shims_text(
            "mure"@,
            (match config.cd_shims_view() {
                Some(c) => c,
                None => "mucd"@,
            }),
        ),
{
    let fn_name = config.resolve_cd_shims();
    shell_shims_for_cd_directly("mure", fn_name.as_str())
}

} // verus!
