//! Reconciliation of filesystem-change notifications: any run of
//! create/modify/remove events observed since the last drain coalesces into
//! a single rescan signal; every other event kind is ignored.

use vstd::prelude::*;

verus! {

/// The kinds of filesystem notification the engine distinguishes.
/// Everything that is not a creation, a content modification or a removal
/// (metadata-only changes, watcher bookkeeping) is `Other`.
#[derive(Clone, Copy, Debug, PartialEq, Eq, Structural)]
pub enum FsEventKind {
    Created,
    Modified,
    Removed,
    Other,
}

/// Whether a single event kind asks for a gallery rescan.
pub open spec fn triggers_rescan(k: FsEventKind) -> bool {
    k != FsEventKind::Other
}

/// Coalesces a batch of drained events into one decision: a full rebuild is
/// due exactly when at least one create/modify/remove event was observed.
pub fn needs_rescan(kinds: &Vec<FsEventKind>) -> (r: bool)
    ensures
        r == exists|i: int| 0 <= i < kinds@.len() && triggers_rescan(kinds@[i]),
{
    let mut i: usize = 0;
    while i < kinds.len()
        invariant
            0 <= i <= kinds@.len(),
            forall|j: int| 0 <= j < i ==> !triggers_rescan(kinds@[j]),
        decreases kinds@.len() - i,
    {
        match kinds[i] {
            FsEventKind::Created | FsEventKind::Modified | FsEventKind::Removed => {
                return true;
            },
            FsEventKind::Other => {},
        }
        i += 1;
    }
    false
}

} // verus!
