//! The token-authentication service: permission model, the token-manager
//! capability a host session must provide, and the router that maps action
//! names to handlers.

use vstd::prelude::*;
use crate::Role;

pub mod do_login;
pub mod acquire_new;
pub mod drop_token;

verus! {

/// The closed set of capability tags guarding the actions of this service.
///
/// `CanAuth` guards authentication (`do-login`); `CanAcquire` guards issuing
/// and invalidating tokens (`acquire-new`, `drop-token`).
#[derive(Clone, Copy, Debug, PartialEq, Eq, Structural)]
pub enum Permission {
    CanAuth,
    CanAcquire,
}

/// Everything that can abort an action: the permission check failed, the
/// session's token manager reported an operational failure (carried verbatim),
/// or the requested action name is not recognized by the router.
#[derive(Clone, Debug, PartialEq, Eq)]
pub enum ActionError {
    Unauthorized,
    Manager(String),
    ActionNotFound,
}

/// The permission-check capability a host session must provide.
///
/// A check either succeeds silently or fails with an authorization error;
/// it takes the session by shared reference, so it can have no effect on
/// session state.
pub trait Require {
    /// Which capability tags the session currently holds.
    spec fn has_permission(&self, permission: Permission) -> bool;

    /// Succeeds exactly when the session holds `permission`; otherwise fails
    /// with the authorization error.
    fn require(&self, permission: &Permission) -> (r: Result<(), ActionError>)
        ensures
            r is Ok <==> self.has_permission(*permission),
            !self.has_permission(*permission) ==> r == Err::<(), ActionError>(
                ActionError::Unauthorized,
            ),
    ;
}

/// One completed call into a session's token manager, recorded with the
/// argument it was given and the outcome it reported. Sequences of these
/// model the manager's observable history.
pub enum ManagerOp {
    SetRole { token: Seq<char>, outcome: Result<bool, Seq<char>> },
    Acquire { outcome: Result<Seq<char>, Seq<char>> },
    Drop { outcome: Result<(), Seq<char>> },
}

/// The abstract value of a `set_role` result.
pub open spec fn set_role_view(r: Result<bool, String>) -> Result<bool, Seq<char>> {
    match r {
        Ok(b) => Ok(b),
        Err(e) => Err(e@),
    }
}

/// The abstract value of an `acquire_token` result.
pub open spec fn acquire_view(r: Result<String, String>) -> Result<Seq<char>, Seq<char>> {
    match r {
        Ok(t) => Ok(t@),
        Err(e) => Err(e@),
    }
}

/// The abstract value of a `drop_token` result.
pub open spec fn drop_view(r: Result<(), String>) -> Result<(), Seq<char>> {
    match r {
        Ok(u) => Ok(u),
        Err(e) => Err(e@),
    }
}

/// The token-manager capability a host session must provide.
///
/// This crate never implements these operations; it only fixes their calling
/// contract: each call appends exactly one faithful record of itself to the
/// session's manager history, whatever outcome the host reports.
pub trait Manager<R: Role> {
    /// The history of token-manager calls made on this session, in order.
    spec fn calls(&self) -> Seq<ManagerOp>;

    /// Validates `token` and, if valid, binds the session to the role it
    /// denotes. `Ok(true)` means the role was set, `Ok(false)` a recognized
    /// but rejected token, `Err` an operational failure.
    fn set_role(&mut self, token: &str) -> (r: Result<bool, String>)
        ensures
            final(self).calls() == old(self).calls().push(
                ManagerOp::SetRole { token: token@, outcome: set_role_view(r) },
            ),
    ;

    /// Issues a new token tied to the session's current identity, or fails
    /// if issuance is impossible.
    fn acquire_token(&mut self) -> (r: Result<String, String>)
        ensures
            final(self).calls() == old(self).calls().push(
                ManagerOp::Acquire { outcome: acquire_view(r) },
            ),
    ;

    /// Invalidates the session's currently bound token, or fails if no token
    /// is bound or invalidation is impossible.
    fn drop_token(&mut self) -> (r: Result<(), String>)
        ensures
            final(self).calls() == old(self).calls().push(
                ManagerOp::Drop { outcome: drop_view(r) },
            ),
    ;
}

/// The three handlers the router can select.
#[derive(Clone, Copy, Debug, PartialEq, Eq, Structural)]
pub enum Action {
    DoLogin,
    AcquireNew,
    DropToken,
}

/// The router: a stateless lookup from action names to handlers.
pub struct TokenService<R> {
    _role: core::marker::PhantomData<R>,
}

/// Relies on str's `PartialEq`: two string slices are equal exactly when
/// their character sequences are.
#[verifier::external_body]
fn str_eq(a: &str, b: &str) -> (r: bool)
    ensures
        r == (a@ == b@),
{
    a == b
}

impl<R> TokenService<R> {
    pub fn new() -> TokenService<R> {
        TokenService { _role: core::marker::PhantomData }
    }

    /// Maps an action name to its handler: exactly `"do-login"`,
    /// `"acquire-new"` and `"drop-token"` are recognized; every other name
    /// is rejected with the routing error. A pure lookup with no effect on
    /// any session.
    pub fn route(&self, action: &str) -> (r: Result<Action, ActionError>)
        ensures
            action@ == "do-login"@ ==> r == Ok::<Action, ActionError>(Action::DoLogin),
            action@ == "acquire-new"@ ==> r == Ok::<Action, ActionError>(Action::AcquireNew),
            action@ == "drop-token"@ ==> r == Ok::<Action, ActionError>(Action::DropToken),
            action@ != "do-login"@ && action@ != "acquire-new"@ && action@ != "drop-token"@
                ==> r == Err::<Action, ActionError>(ActionError::ActionNotFound),
    {
        proof {
            reveal_strlit("do-login");
            reveal_strlit("acquire-new");
            reveal_strlit("drop-token");
            // the three names differ in length, so no two are the same sequence
            assert("do-login"@.len() == 8);
            assert("acquire-new"@.len() == 11);
            assert("drop-token"@.len() == 10);
        }
        if str_eq(action, "do-login") {
            Ok(Action::DoLogin)
        } else if str_eq(action, "acquire-new") {
            Ok(Action::AcquireNew)
        } else if str_eq(action, "drop-token") {
            Ok(Action::DropToken)
        } else {
            Err(ActionError::ActionNotFound)
        }
    }
}

} // verus!
