//! The `drop-token` handler: invalidate a session's currently bound token.

use vstd::prelude::*;
use crate::Role;
use crate::token::{ActionError, Manager, ManagerOp, Permission, Require};

verus! {

/// What `drop-token` leaves behind on an authorized session: the manager
/// history grows by exactly one `drop_token` call, and the reply reports that
/// call's outcome faithfully — completion with no payload on success, the
/// manager's failure verbatim otherwise.
pub open spec fn drop_post(
    pre: Seq<ManagerOp>,
    post: Seq<ManagerOp>,
    r: Result<(), ActionError>,
) -> bool {
    match r {
        Ok(u) => post == pre.push(ManagerOp::Drop { outcome: Ok::<(), Seq<char>>(u) }),
        Err(e) => e matches ActionError::Manager(m) && post == pre.push(
            ManagerOp::Drop { outcome: Err::<(), Seq<char>>(m@) },
        ),
    }
}

/// The reply of `drop-token` is determined by the manager's recorded
/// outcome: whenever the one `drop_token` call succeeded, the action
/// completes with no payload and never an error; whenever the call failed —
/// for instance because no token was bound — the action fails with that
/// failure verbatim and produces no completion.
pub proof fn lemma_reply_reflects_outcome(
    pre: Seq<ManagerOp>,
    post: Seq<ManagerOp>,
    outcome: Result<(), Seq<char>>,
    r: Result<(), ActionError>,
)
    requires
        drop_post(pre, post, r),
        post == pre.push(ManagerOp::Drop { outcome }),
    ensures
        match outcome {
            Ok(u) => r == Ok::<(), ActionError>(()),
            Err(m) => r matches Err(e) && e matches ActionError::Manager(s) && s@ == m,
        },
{
    assert(post.last() == ManagerOp::Drop { outcome });
}

/// Invalidates the session's currently bound token.
///
/// Requires `Permission::CanAcquire` of the session before anything else: a
/// session lacking it is turned away with the authorization error and is left
/// untouched — in particular, `drop_token` is never invoked. On an authorized
/// session, exactly one `drop_token` call is made; success completes with no
/// payload, and a manager failure (such as no token being bound) is surfaced
/// unchanged, with the manager-side state left as the manager left it.
pub fn action<T, R>(session: &mut T) -> (r: Result<(), ActionError>)
    where
        T: Require + Manager<R>,
        R: Role,
    ensures
        !old(session).has_permission(Permission::CanAcquire) ==> ({
            &&& r == Err::<(), ActionError>(ActionError::Unauthorized)
            &&& *final(session) == *old(session)
            &&& final(session).calls() == old(session).calls()
        }),
        old(session).has_permission(Permission::CanAcquire) ==> drop_post(
            old(session).calls(),
            final(session).calls(),
            r,
        ),
{
    match session.require(&Permission::CanAcquire) {
        Ok(u) => u,
        Err(e) => {
            return Err(e);
        },
    };
    match session.drop_token() {
        Ok(u) => Ok(u),
        Err(m) => Err(ActionError::Manager(m)),
    }
}

} // verus!
