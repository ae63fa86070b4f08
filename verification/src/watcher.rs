//! Decisions of the file system watcher: which configured folders are
//! watched, and which event a debounced change becomes.
//!
//! The watcher thread, the debouncer and the paths' conversion to text stay at
//! the program's edge.
use vstd::prelude::*;
use crate::event::{Event, is_known_op, law_operation_names, OP_CREATE, OP_WRITE, OP_REMOVE, OP_RENAME};

verus! {

/// Which end of a rename a change describes.
#[derive(Debug, Clone, Copy, PartialEq, Eq, Structural)]
pub enum RenameMode {
    /// The direction is not known.
    Any,
    /// The change is seen from the new name.
    To,
    /// The change is seen from the old name.
    From,
    /// The change is seen from both names.
    Both,
    /// Some other rename notification.
    Other,
}

/// The kind of a debounced file system change, one variant for each kind of
/// change that the notifier reports (the finer sub-kinds of creation, access,
/// data and metadata changes and removal do not matter here).
#[derive(Debug, Clone, Copy, PartialEq, Eq, Structural)]
pub enum ChangeKind {
    /// A change of unknown kind.
    Any,
    /// Something was read, opened or closed.
    Access,
    /// Something was created.
    Create,
    /// A modification of unknown kind.
    ModifyAny,
    /// A file's data changed.
    ModifyData,
    /// Metadata (permissions, times, ownership, ...) changed.
    ModifyMetadata,
    /// Something was renamed.
    ModifyName(RenameMode),
    /// Some other modification.
    ModifyOther,
    /// Something was removed.
    Remove,
    /// Some other change.
    Other,
}

/// The operation that a change is reported as; `None` for a kind that is not
/// reported. A rename is a creation at its new name and a removal at its old
/// one; when the notifier does not say which end it saw, `exists_after` (whether
/// the path exists once the change is done) tells them apart.
pub open spec fn spec_op_for(kind: ChangeKind, exists_after: bool) -> Option<Seq<char>> {
    match kind {
        ChangeKind::Create => Some(OP_CREATE@),
        ChangeKind::ModifyData => Some(OP_WRITE@),
        ChangeKind::ModifyName(RenameMode::To) => Some(OP_CREATE@),
        ChangeKind::ModifyName(RenameMode::From) => Some(OP_REMOVE@),
        ChangeKind::ModifyName(RenameMode::Both) => Some(OP_RENAME@),
        ChangeKind::ModifyName(_) => Some(if exists_after { OP_CREATE@ } else { OP_REMOVE@ }),
        ChangeKind::ModifyAny => Some(OP_WRITE@),
        ChangeKind::ModifyMetadata => Some(OP_WRITE@),
        ChangeKind::ModifyOther => Some(OP_WRITE@),
        ChangeKind::Remove => Some(OP_REMOVE@),
        ChangeKind::Any => None,
        ChangeKind::Access => None,
        ChangeKind::Other => None,
    }
}

/// The event for a debounced change with the given paths (as text) and kind:
/// the first path and the kind's operation. `exists_after` is whether the first
/// path exists once the change is done. A change without paths, or of a kind
/// that is not reported, gives no event.
pub fn event_for_change(paths: &Vec<String>, kind: ChangeKind, exists_after: bool) -> (r: Option<
    Event,
>)
    ensures
        paths@.len() == 0 ==> r is None,
        paths@.len() > 0 ==> match spec_op_for(kind, exists_after) {
            None => r is None,
            Some(op) => r matches Some(e) && e.path@ == paths@[0]@ && e.op@ == op,
        },
        r matches Some(e) ==> is_known_op(e.op@),
{
    if paths.len() == 0 {
        return None;
    }
    let op = match kind {
        ChangeKind::Create => OP_CREATE,
        ChangeKind::ModifyData => OP_WRITE,
        ChangeKind::ModifyName(RenameMode::To) => OP_CREATE,
        ChangeKind::ModifyName(RenameMode::From) => OP_REMOVE,
        ChangeKind::ModifyName(RenameMode::Both) => OP_RENAME,
        ChangeKind::ModifyName(_) => {
            if exists_after {
                OP_CREATE
            } else {
                OP_REMOVE
            }
        },
        ChangeKind::ModifyAny => OP_WRITE,
        ChangeKind::ModifyMetadata => OP_WRITE,
        ChangeKind::ModifyOther => OP_WRITE,
        ChangeKind::Remove => OP_REMOVE,
        ChangeKind::Any | ChangeKind::Access | ChangeKind::Other => {
            return None;
        },
    };
    Some(Event { path: paths[0].clone(), op: String::from_str(op) })
}

/// A rename is never reported as a write: whichever end of it the notifier
/// saw, the event is a creation, a removal, or (seen from both ends) a rename.
pub proof fn law_renames_are_create_remove_or_rename(mode: RenameMode, exists_after: bool)
    ensures
        spec_op_for(ChangeKind::ModifyName(mode), exists_after) matches Some(op) && (op
            == OP_CREATE@ || op == OP_REMOVE@ || op == OP_RENAME@),
        mode != RenameMode::Both ==> spec_op_for(ChangeKind::ModifyName(mode), exists_after)
            != Some(OP_RENAME@),
{
    reveal_strlit("CREATE");
    reveal_strlit("REMOVE");
    reveal_strlit("RENAME");
    assert(OP_CREATE@[1] != OP_RENAME@[1]);
    assert(OP_REMOVE@[2] != OP_RENAME@[2]);
}

/// What the watcher does with a configured folder.
#[derive(Debug, Clone, Copy, PartialEq, Eq, Structural)]
pub enum WatchRoot {
    /// Watch it and everything below it (recursive mode).
    WatchRecursive,
    /// Skip it: the path does not exist.
    SkipMissing,
    /// Skip it: the path is not a directory.
    SkipNotDirectory,
}

/// Whether a configured folder is watched, from whether its path exists and
/// whether it is a directory.
pub fn classify_watch_root(exists: bool, is_dir: bool) -> (r: WatchRoot)
    ensures
        !exists ==> r == WatchRoot::SkipMissing,
        exists && !is_dir ==> r == WatchRoot::SkipNotDirectory,
        exists && is_dir ==> r == WatchRoot::WatchRecursive,
{
    if !exists {
        WatchRoot::SkipMissing
    } else if !is_dir {
        WatchRoot::SkipNotDirectory
    } else {
        WatchRoot::WatchRecursive
    }
}

/// The operation of each kind of change: a creation is "CREATE"; a data,
/// metadata or unspecified modification is "WRITE"; a removal is "REMOVE"; a
/// rename is "CREATE" at its new name, "REMOVE" at its old one and "RENAME"
/// from both ends, and of unknown direction "CREATE" when the path exists
/// afterwards and "REMOVE" when it does not; access and unclassified changes
/// are not reported.
pub proof fn law_operation_of_change(kind: ChangeKind, exists_after: bool)
    ensures
        kind == ChangeKind::Create ==> spec_op_for(kind, exists_after) == Some(
            seq!['C', 'R', 'E', 'A', 'T', 'E'],
        ),
        (kind == ChangeKind::ModifyData || kind == ChangeKind::ModifyMetadata || kind
            == ChangeKind::ModifyAny || kind == ChangeKind::ModifyOther) ==> spec_op_for(
            kind,
            exists_after,
        ) == Some(seq!['W', 'R', 'I', 'T', 'E']),
        kind == ChangeKind::Remove ==> spec_op_for(kind, exists_after) == Some(
            seq!['R', 'E', 'M', 'O', 'V', 'E'],
        ),
        kind == ChangeKind::ModifyName(RenameMode::To) ==> spec_op_for(kind, exists_after) == Some(
            seq!['C', 'R', 'E', 'A', 'T', 'E'],
        ),
        kind == ChangeKind::ModifyName(RenameMode::From) ==> spec_op_for(kind, exists_after)
            == Some(seq!['R', 'E', 'M', 'O', 'V', 'E']),
        kind == ChangeKind::ModifyName(RenameMode::Both) ==> spec_op_for(kind, exists_after)
            == Some(seq!['R', 'E', 'N', 'A', 'M', 'E']),
        (kind == ChangeKind::ModifyName(RenameMode::Any) || kind == ChangeKind::ModifyName(
            RenameMode::Other,
        )) ==> spec_op_for(kind, exists_after) == Some(
            if exists_after {
                seq!['C', 'R', 'E', 'A', 'T', 'E']
            } else {
                seq!['R', 'E', 'M', 'O', 'V', 'E']
            },
        ),
        (kind == ChangeKind::Any || kind == ChangeKind::Access || kind == ChangeKind::Other)
            ==> spec_op_for(kind, exists_after) is None,
{
    law_operation_names();
}

} // verus!
