use vstd::prelude::*;
use crate::entry::{Entry, LinkState};
use crate::error::SyncError;

verus! {

/// What to do with the destination when the source is a symbolic link.
#[derive(Clone, Copy, Debug, PartialEq, Eq)]
pub enum LinkPlan {
    /// The destination already links to the same target.
    Unchanged,
    /// Nothing is at the destination: create the link.
    Create,
    /// The destination links elsewhere: remove it, then create the link.
    Replace,
}

/// The reconciliation table: only a link is ever replaced by a link.
pub open spec fn link_plan(src_target: Seq<char>, dest: Entry) -> Result<LinkPlan, SyncError> {
    match dest.link {
        LinkState::Missing => Ok(LinkPlan::Create),
        LinkState::Link { target } => if target@ == src_target {
            Ok(LinkPlan::Unchanged)
        } else {
            Ok(LinkPlan::Replace)
        },
        LinkState::NotLink => Err(SyncError::RefusedOverwrite { path: dest.path }),
    }
}

/// Decides how the destination is brought to link to `src_target`.
/// A destination that exists and is not a link is refused, never removed.
pub fn reconcile_link(src_target: &String, dest: &Entry) -> (r: Result<LinkPlan, SyncError>)
    ensures
        r == link_plan(src_target@, *dest),
{
    match &dest.link {
        LinkState::Missing => Ok(LinkPlan::Create),
        LinkState::Link { target } => {
            if *target == *src_target {
                Ok(LinkPlan::Unchanged)
            } else {
                Ok(LinkPlan::Replace)
            }
        },
        LinkState::NotLink => Err(SyncError::RefusedOverwrite { path: dest.path.clone() }),
    }
}

} // verus!
