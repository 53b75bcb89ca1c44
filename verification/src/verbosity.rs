//! How much raw command output is echoed into transcripts.

use vstd::prelude::*;

verus! {

/// Verbosity only controls how much text is reported; it never changes
/// which operations run.
#[derive(Clone, Copy, Debug, PartialEq, Eq, Structural)]
pub enum Verbosity {
    Quiet,
    Normal,
    Verbose,
}

impl Verbosity {
    /// `quiet` wins over `verbose`; neither flag means `Normal`.
    pub fn from_bools(quiet: bool, verbose: bool) -> (v: Verbosity)
        ensures
            v == (if quiet {
                Verbosity::Quiet
            } else if verbose {
                Verbosity::Verbose
            } else {
                Verbosity::Normal
            }),
    {
        match (quiet, verbose) {
            (true, _) => Verbosity::Quiet,
            (_, true) => Verbosity::Verbose,
            _ => Verbosity::Normal,
        }
    }
}

} // verus!
