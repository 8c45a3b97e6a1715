//! Decisions of the idempotent creation handlers: writing a file only when
//! it is missing, and creating a symlink only when its path is free.
//!
//! The probe for what is already on disk and the creation calls themselves
//! are the caller's; these functions take the probe's answer and say what
//! is to be done.

use vstd::prelude::*;

use crate::paths::parent_dir;
use crate::paths::parent_spec;

verus! {

/// What the write-if-missing handler is to do for a path.
#[derive(Debug)]
pub enum WriteAction {
    /// The file is already present: write nothing and report that nothing
    /// was written.
    Skip,
    /// The file is missing: create `parent` first when there is one, then
    /// write, and report that the file was written.
    Write { parent: Option<String> },
}

/// The write-if-missing decision: skip when the file is already present,
/// otherwise write, creating the path's parent directory first.
pub fn write_if_missing_plan(path: &str, present: bool) -> (r: WriteAction)
    ensures
        (match r {
            WriteAction::Skip => present,
            WriteAction::Write { parent } => !present && (match (parent, parent_spec(path@)) {
                (Some(p), Some(q)) => p@ == q,
                (None, None) => true,
                _ => false,
            }),
        }),
{
    if present {
        WriteAction::Skip
    } else {
        WriteAction::Write { parent: parent_dir(path) }
    }
}

/// What the symlink handler is to do for a link path.
#[derive(Debug, PartialEq, Eq, Structural)]
pub enum LinkAction {
    /// The link path is already occupied: create nothing and report that
    /// nothing was created.
    Skip,
    /// The link path is free: create the link, and report that it was
    /// created or the error the creation call gave.
    Link,
}

/// The symlink decision: skip when something already sits at the link path,
/// otherwise create the link.
pub fn create_symlink_plan(present: bool) -> (r: LinkAction)
    ensures
        present <==> r is Skip,
{
    if present {
        LinkAction::Skip
    } else {
        LinkAction::Link
    }
}

} // verus!
