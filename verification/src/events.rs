//! Filesystem change events, as the watch loop sees them.
//!
//! A change event carries a kind and the affected paths, as plain values.
//! An event qualifies for a rebuild exactly when its kind is a data
//! modification and at least one affected path has the source extension;
//! metadata-only modifications, creates, removes and renames never qualify.

use vstd::prelude::*;

use crate::config::source_extension;
use crate::config::source_extension_str;
use crate::paths::has_extension;
use crate::paths::path_has_extension;

verus! {

/// The sub-kind of a modification event.
#[derive(Clone, Copy, Debug, PartialEq, Eq, Structural)]
pub enum ModifyEventKind {
    /// The file's data changed.
    Data,
    /// Only metadata changed (permissions, timestamps).
    Metadata,
    /// The file was renamed.
    Rename,
    /// A modification of unknown sub-kind.
    Other,
}

/// The kind of a filesystem change event.
#[derive(Clone, Copy, Debug, PartialEq, Eq, Structural)]
pub enum ChangeEventKind {
    /// A file or directory appeared.
    Create,
    /// An existing entry was modified, with a sub-kind.
    Modify(ModifyEventKind),
    /// A file or directory disappeared.
    Remove,
    /// An entry was accessed without change.
    Access,
    /// An event of unknown kind.
    Other,
}

/// One filesystem change notification: a kind, and the affected paths.
#[derive(Debug)]
pub struct ChangeEvent {
    /// What happened.
    pub kind: ChangeEventKind,
    /// The paths it happened to.
    pub paths: Vec<String>,
}

/// The path names a source file of the watched language.
pub open spec fn is_source_path(path: Seq<char>) -> bool {
    has_extension(path, source_extension())
}

/// The event calls for a rebuild: its kind is a data modification, and at
/// least one affected path is a source file.
pub open spec fn qualifies(e: ChangeEvent) -> bool {
    &&& e.kind matches ChangeEventKind::Modify(ModifyEventKind::Data)
    &&& exists|i: int| 0 <= i < e.paths@.len() && is_source_path(#[trigger] e.paths@[i]@)
}

/// Decides [`qualifies`] on a change event.
pub fn event_qualifies(e: &ChangeEvent) -> (r: bool)
    ensures
        r == qualifies(*e),
{
    let is_data_modify = match e.kind {
        ChangeEventKind::Modify(ModifyEventKind::Data) => true,
        _ => false,
    };
    if !is_data_modify {
        return false;
    }
    let ext = source_extension_str();
    let mut i: usize = 0;
    while i < e.paths.len()
        invariant
            i <= e.paths@.len(),
            ext@ == source_extension(),
            e.kind matches ChangeEventKind::Modify(ModifyEventKind::Data),
            forall|j: int| 0 <= j < i ==> !is_source_path(#[trigger] e.paths@[j]@),
        decreases e.paths@.len() - i,
    {
        if path_has_extension(e.paths[i].as_str(), ext) {
            return true;
        }
        i += 1;
    }
    false
}

} // verus!
