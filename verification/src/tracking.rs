//! Tracked poses: what a query of the runtime means for the pose in hand.
//!
//! A controller that is put down or out of sight cannot be located for a
//! while. That is expected, and no error: the query then yields no update and
//! the pose last seen stays.

use vstd::prelude::*;

verus! {

/// The result of one query for a tracked pose.
#[derive(Debug)]
pub enum PoseUpdate<P> {
    /// The runtime located the pose.
    Located(P),
    /// The runtime cannot locate the pose right now.
    NoUpdate,
}

/// The pose that a query leaves in hand.
pub open spec fn pose_after<P>(previous: Option<P>, update: PoseUpdate<P>) -> Option<P> {
    match update {
        PoseUpdate::Located(pose) => Some(pose),
        PoseUpdate::NoUpdate => previous,
    }
}

impl<P> PoseUpdate<P> {
    /// Reads a query: `located` is what the runtime returned for the space,
    /// `active` whether it reports the pose action as active. Only an active
    /// pose counts as located.
    pub fn from_query(active: bool, located: P) -> (update: PoseUpdate<P>)
        ensures
            update == if active {
                PoseUpdate::Located(located)
            } else {
                PoseUpdate::NoUpdate
            },
    {
        if active {
            PoseUpdate::Located(located)
        } else {
            PoseUpdate::NoUpdate
        }
    }

    /// The pose to go on with: the new one, or the previous one where there
    /// is no update.
    pub fn apply(self, previous: Option<P>) -> (current: Option<P>)
        ensures
            current == pose_after(previous, self),
    {
        match self {
            PoseUpdate::Located(pose) => Some(pose),
            PoseUpdate::NoUpdate => previous,
        }
    }
}

impl<P: Copy> PoseUpdate<P> {
    /// A copy of this update.
    pub fn copied(&self) -> (copy: PoseUpdate<P>)
        ensures
            copy == *self,
    {
        match self {
            PoseUpdate::Located(pose) => PoseUpdate::Located(*pose),
            PoseUpdate::NoUpdate => PoseUpdate::NoUpdate,
        }
    }
}

} // verus!
