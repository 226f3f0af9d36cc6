//! What to do with a socket path before binding it.
use vstd::prelude::*;

verus! {

/// The treatment of one socket path at startup.
#[derive(PartialEq, Eq, Structural, Clone, Copy, Debug)]
pub enum PathPlan {
    /// Nothing is at the path: bind it.
    Bind,
    /// A socket left by an earlier run is at the path: remove it, then bind.
    RemoveThenBind,
    /// Something that is not a socket is at the path: leave it in place and
    /// fail to start.
    Conflict,
}

pub open spec fn path_plan(exists: bool, is_socket: bool) -> PathPlan {
    if !exists {
        PathPlan::Bind
    } else if is_socket {
        PathPlan::RemoveThenBind
    } else {
        PathPlan::Conflict
    }
}

/// Decides what startup does with a socket path, from whether something is
/// there and whether it is a socket.
pub fn plan_socket_path(exists: bool, is_socket: bool) -> (r: PathPlan)
    ensures
        r == path_plan(exists, is_socket),
{
    if !exists {
        PathPlan::Bind
    } else if is_socket {
        PathPlan::RemoveThenBind
    } else {
        PathPlan::Conflict
    }
}

} // verus!
