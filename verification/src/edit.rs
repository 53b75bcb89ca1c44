//! Choosing the editor to open a repository with. Launching it, and asking
//! a repository or the environment for their settings, happen outside the
//! library; the priority between the candidates is decided here.

use vstd::prelude::*;

verus! {

use crate::config::Config;
use crate::mure_error::{Error, ErrorModel};

/// The editor named in the configuration file, if any.
pub fn get_editor_from_config(config: &Config) -> (r: Result<String, Error>)
    ensures
        (config.core.editor matches Some(e) ==> (r matches Ok(s) && s@ == e@)),
        config.core.editor is None ==> (r matches Err(er) && er@ == ErrorModel::Message(
            "No editor found"@,
        )),
{
    match &config.core.editor {
        Some(editor) => Ok(editor.clone()),
        None => Err(Error::from_str("No editor found")),
    }
}

/// The editor chosen by priority: the configuration file first, then the
/// repository's own setting, then the environment; an error only when none
/// names one.
pub fn choose_editor(
    from_config: Option<String>,
    from_git_config: Option<String>,
    from_env: Option<String>,
) -> (r: Result<String, Error>)
    ensures
        (from_config matches Some(e) ==> (r matches Ok(s) && s@ == e@)),
        from_config is None ==> (from_git_config matches Some(e) ==> (r matches Ok(s) && s@
            == e@)),
        from_config is None && from_git_config is None ==> (from_env matches Some(e) ==> (
        r matches Ok(s) && s@ == e@)),
        from_config is None && from_git_config is None && from_env is None ==> (r matches Err(er)
            && er@ == ErrorModel::Message("No editor found"@)),
{
    if let Some(editor) = from_config {
        return Ok(editor);
    }
    if let Some(editor) = from_git_config {
        return Ok(editor);
    }
    if let Some(editor) = from_env {
        return Ok(editor);
    }
    Err(Error::from_str("No editor found"))
}

} // verus!
