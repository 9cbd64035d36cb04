//! The `acquire-new` handler: issue a fresh token for a session.

use vstd::prelude::*;
use crate::Role;
use crate::token::{ActionError, Manager, ManagerOp, Permission, Require};

verus! {

/// The single terminal result of `acquire-new`: the freshly issued token.
#[derive(Clone, Debug, PartialEq, Eq)]
pub struct Out {
    pub token: String,
}

/// What `acquire-new` leaves behind on an authorized session: the manager
/// history grows by exactly one `acquire_token` call, and the reply carries
/// that call's outcome faithfully — the issued token as `Out { token }`, a
/// manager failure as that error, verbatim; a failing call leaks no token.
pub open spec fn acquire_post(
    pre: Seq<ManagerOp>,
    post: Seq<ManagerOp>,
    r: Result<Out, ActionError>,
) -> bool {
    match r {
        Ok(out) => post == pre.push(
            ManagerOp::Acquire { outcome: Ok::<Seq<char>, Seq<char>>(out.token@) },
        ),
        Err(e) => e matches ActionError::Manager(m) && post == pre.push(
            ManagerOp::Acquire { outcome: Err::<Seq<char>, Seq<char>>(m@) },
        ),
    }
}

/// The reply of `acquire-new` is determined by the manager's recorded
/// outcome: whenever the one `acquire_token` call issued a token, the action
/// returns exactly that token and never an error; whenever the call failed,
/// the action fails with that failure verbatim and exposes no token at all.
pub proof fn lemma_reply_reflects_outcome(
    pre: Seq<ManagerOp>,
    post: Seq<ManagerOp>,
    outcome: Result<Seq<char>, Seq<char>>,
    r: Result<Out, ActionError>,
)
    requires
        acquire_post(pre, post, r),
        post == pre.push(ManagerOp::Acquire { outcome }),
    ensures
        match outcome {
            Ok(t) => r matches Ok(out) && out.token@ == t,
            Err(m) => r matches Err(e) && e matches ActionError::Manager(s) && s@ == m,
        },
{
    assert(post.last() == ManagerOp::Acquire { outcome });
    if let Ok(out) = r {
        assert(post.last() == ManagerOp::Acquire {
            outcome: Ok::<Seq<char>, Seq<char>>(out.token@),
        });
    }
}

/// Issues a new token tied to the session's current identity.
///
/// Requires `Permission::CanAcquire` of the session before anything else: a
/// session lacking it is turned away with the authorization error and is left
/// untouched — in particular, `acquire_token` is never invoked. On an
/// authorized session, exactly one `acquire_token` call is made and its
/// outcome is surfaced unchanged.
pub fn action<T, R>(session: &mut T) -> (r: Result<Out, ActionError>)
    where
        T: Require + Manager<R>,
        R: Role,
    ensures
        !old(session).has_permission(Permission::CanAcquire) ==> ({
            &&& r == Err::<Out, ActionError>(ActionError::Unauthorized)
            &&& *final(session) == *old(session)
            &&& final(session).calls() == old(session).calls()
        }),
        old(session).has_permission(Permission::CanAcquire) ==> acquire_post(
            old(session).calls(),
            final(session).calls(),
            r,
        ),
{
    match session.require(&Permission::CanAcquire) {
        Ok(u) => u,
        Err(e) => {
            return Err(e);
        },
    };
    match session.acquire_token() {
        Ok(token) => Ok(Out { token }),
        Err(m) => Err(ActionError::Manager(m)),
    }
}

} // verus!
