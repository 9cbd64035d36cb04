//! The `do-login` handler: authenticate a session by presenting a token.

use vstd::prelude::*;
use crate::Role;
use crate::token::{ActionError, Manager, ManagerOp, Permission, Require};

verus! {

/// The request of `do-login`: the token to authenticate with.
#[derive(Clone, Debug, PartialEq, Eq)]
pub struct Request {
    pub token: String,
}

/// The single terminal result of `do-login`: whether the manager bound the
/// session to the role the token denotes.
#[derive(Clone, Copy, Debug, PartialEq, Eq, Structural)]
pub struct Out {
    pub success: bool,
}

/// What `do-login` leaves behind on an authorized session: the manager
/// history grows by exactly one `set_role` call carrying the request's token,
/// and the reply reports that call's outcome faithfully — the manager's
/// boolean as `Out { success }`, a manager failure as that error, verbatim.
pub open spec fn login_post(
    pre: Seq<ManagerOp>,
    post: Seq<ManagerOp>,
    token: Seq<char>,
    r: Result<Out, ActionError>,
) -> bool {
    match r {
        Ok(out) => post == pre.push(
            ManagerOp::SetRole { token, outcome: Ok::<bool, Seq<char>>(out.success) },
        ),
        Err(e) => e matches ActionError::Manager(m) && post == pre.push(
            ManagerOp::SetRole { token, outcome: Err::<bool, Seq<char>>(m@) },
        ),
    }
}

/// The reply of `do-login` is determined by the manager's recorded outcome:
/// whenever the one `set_role` call came back with a boolean — the token was
/// accepted or merely rejected — the action returns `Out { success }` with
/// exactly that boolean and never an error; only an operational failure of
/// the manager makes the action fail, and then with that failure verbatim.
pub proof fn lemma_reply_reflects_outcome(
    pre: Seq<ManagerOp>,
    post: Seq<ManagerOp>,
    token: Seq<char>,
    outcome: Result<bool, Seq<char>>,
    r: Result<Out, ActionError>,
)
    requires
        login_post(pre, post, token, r),
        post == pre.push(ManagerOp::SetRole { token, outcome }),
    ensures
        match outcome {
            Ok(b) => r == Ok::<Out, ActionError>(Out { success: b }),
            Err(m) => r matches Err(e) && e matches ActionError::Manager(s) && s@ == m,
        },
{
    assert(post.last() == ManagerOp::SetRole { token, outcome });
    if let Ok(out) = r {
        assert(post.last() == ManagerOp::SetRole {
            token,
            outcome: Ok::<bool, Seq<char>>(out.success),
        });
    }
}

/// Authenticates the session with the request's token.
///
/// Requires `Permission::CanAuth` of the session before anything else: a
/// session lacking it is turned away with the authorization error and is left
/// untouched — in particular, `set_role` is never invoked. On an authorized
/// session, exactly one `set_role` call is made with the request's token and
/// its outcome is surfaced unchanged.
pub fn action<T, R>(session: &mut T, request: Request) -> (r: Result<Out, ActionError>)
    where
        T: Require + Manager<R>,
        R: Role,
    ensures
        !old(session).has_permission(Permission::CanAuth) ==> ({
            &&& r == Err::<Out, ActionError>(ActionError::Unauthorized)
            &&& *final(session) == *old(session)
            &&& final(session).calls() == old(session).calls()
        }),
        old(session).has_permission(Permission::CanAuth) ==> login_post(
            old(session).calls(),
            final(session).calls(),
            request.token@,
            r,
        ),
{
    match session.require(&Permission::CanAuth) {
        Ok(u) => u,
        Err(e) => {
            return Err(e);
        },
    };
    match session.set_role(request.token.as_str()) {
        Ok(success) => Ok(Out { success }),
        Err(m) => Err(ActionError::Manager(m)),
    }
}

} // verus!
