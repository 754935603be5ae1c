//! Version-control status for the footer, as a decision over plain
//! observations; running the tool itself is the caller's business.

use vstd::prelude::*;

verus! {

/// Working-tree state of the workspace.
#[derive(Debug, Clone, Copy, PartialEq, Eq, Structural)]
pub enum GitStatus {
    Clean,
    Dirty,
    /// No repository, or the tool is unavailable.
    Unknown,
}

/// Classify what a status query observed: whether a repository
/// directory exists, and — when the tool ran — whether it succeeded and
/// whether it printed nothing.
pub fn classify_git_status(has_git_dir: bool, output: Option<(bool, bool)>) -> (r: GitStatus)
    ensures
        !has_git_dir ==> r == GitStatus::Unknown,
        has_git_dir ==> match output {
            Some(o) => if o.0 {
                r == (if o.1 {
                    GitStatus::Clean
                } else {
                    GitStatus::Dirty
                })
            } else {
                r == GitStatus::Unknown
            },
            None => r == GitStatus::Unknown,
        },
{
    if !has_git_dir {
        return GitStatus::Unknown;
    }
    match output {
        Some((success, empty)) => {
            if success {
                if empty {
                    GitStatus::Clean
                } else {
                    GitStatus::Dirty
                }
            } else {
                GitStatus::Unknown
            }
        },
        None => GitStatus::Unknown,
    }
}

} // verus!
