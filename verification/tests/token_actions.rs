use mould_auth::token::acquire_new;
use mould_auth::token::do_login;
use mould_auth::token::drop_token;
use mould_auth::token::{Action, ActionError, Manager, ManagerOp, Permission, Require, TokenService};
use mould_auth::Role;

struct TestRole;

impl Role for TestRole {}

/// A configurable session stub that counts every token-manager call.
struct StubSession {
    can_auth: bool,
    can_acquire: bool,
    /// `set_role` answers `Ok(true)` for exactly this token, `Ok(false)` for
    /// any other, unless `manager_error` is set.
    valid_token: String,
    /// When set, every manager call fails with this message.
    manager_error: Option<String>,
    /// The token a successful `acquire_token` hands out, and the one a
    /// `drop_token` invalidates.
    issued_token: String,
    bound_token: Option<String>,
    set_role_calls: usize,
    acquire_calls: usize,
    drop_calls: usize,
}

impl StubSession {
    fn new(can_auth: bool, can_acquire: bool) -> StubSession {
        StubSession {
            can_auth,
            can_acquire,
            valid_token: String::from("secret"),
            manager_error: None,
            issued_token: String::from("abc123"),
            bound_token: None,
            set_role_calls: 0,
            acquire_calls: 0,
            drop_calls: 0,
        }
    }
}

impl Require for StubSession {
    // The ghost model of the session's permissions; never called at run time.
    fn has_permission(&self, _permission: Permission) -> bool {
        panic!()
    }

    fn require(&self, permission: &Permission) -> Result<(), ActionError> {
        let held = match *permission {
            Permission::CanAuth => self.can_auth,
            Permission::CanAcquire => self.can_acquire,
        };
        if held {
            Ok(())
        } else {
            Err(ActionError::Unauthorized)
        }
    }
}

impl Manager<TestRole> for StubSession {
    // The ghost model of the manager-call history; never called at run time.
    fn calls(&self) -> vstd::seq::Seq<ManagerOp> {
        panic!()
    }

    fn set_role(&mut self, token: &str) -> Result<bool, String> {
        self.set_role_calls += 1;
        match &self.manager_error {
            Some(e) => Err(e.clone()),
            None => Ok(token == self.valid_token),
        }
    }

    fn acquire_token(&mut self) -> Result<String, String> {
        self.acquire_calls += 1;
        match &self.manager_error {
            Some(e) => Err(e.clone()),
            None => {
                self.bound_token = Some(self.issued_token.clone());
                Ok(self.issued_token.clone())
            }
        }
    }

    fn drop_token(&mut self) -> Result<(), String> {
        self.drop_calls += 1;
        match &self.manager_error {
            Some(e) => Err(e.clone()),
            None => match self.bound_token.take() {
                Some(_) => Ok(()),
                None => Err(String::from("no token bound")),
            },
        }
    }
}

#[test]
fn login_denied_without_can_auth() {
    let mut session = StubSession::new(false, true);
    let r = do_login::action::<StubSession, TestRole>(
        &mut session,
        do_login::Request { token: String::from("secret") },
    );
    assert_eq!(r, Err(ActionError::Unauthorized));
    assert_eq!(session.set_role_calls, 0);
}

#[test]
fn acquire_denied_without_can_acquire() {
    let mut session = StubSession::new(true, false);
    let r = acquire_new::action::<StubSession, TestRole>(&mut session);
    assert_eq!(r, Err(ActionError::Unauthorized));
    assert_eq!(session.acquire_calls, 0);
}

#[test]
fn drop_denied_without_can_acquire() {
    let mut session = StubSession::new(true, false);
    let r = drop_token::action::<StubSession, TestRole>(&mut session);
    assert_eq!(r, Err(ActionError::Unauthorized));
    assert_eq!(session.drop_calls, 0);
}

#[test]
fn login_with_accepted_token_reports_success() {
    let mut session = StubSession::new(true, true);
    let r = do_login::action::<StubSession, TestRole>(
        &mut session,
        do_login::Request { token: String::from("secret") },
    );
    assert_eq!(r, Ok(do_login::Out { success: true }));
    assert_eq!(session.set_role_calls, 1);
}

#[test]
fn login_with_rejected_token_reports_failure_not_error() {
    let mut session = StubSession::new(true, true);
    let r = do_login::action::<StubSession, TestRole>(
        &mut session,
        do_login::Request { token: String::from("wrong") },
    );
    assert_eq!(r, Ok(do_login::Out { success: false }));
    assert_eq!(session.set_role_calls, 1);
}

#[test]
fn login_surfaces_manager_error() {
    let mut session = StubSession::new(true, true);
    session.manager_error = Some(String::from("backing store unavailable"));
    let r = do_login::action::<StubSession, TestRole>(
        &mut session,
        do_login::Request { token: String::from("secret") },
    );
    assert_eq!(
        r,
        Err(ActionError::Manager(String::from("backing store unavailable")))
    );
    assert_eq!(session.set_role_calls, 1);
}

#[test]
fn acquire_returns_exactly_the_issued_token() {
    let mut session = StubSession::new(true, true);
    let r = acquire_new::action::<StubSession, TestRole>(&mut session);
    assert_eq!(r, Ok(acquire_new::Out { token: String::from("abc123") }));
    assert_eq!(session.acquire_calls, 1);
}

#[test]
fn acquire_surfaces_manager_error_and_leaks_no_token() {
    let mut session = StubSession::new(true, true);
    session.manager_error = Some(String::from("quota exceeded"));
    let r = acquire_new::action::<StubSession, TestRole>(&mut session);
    assert_eq!(r, Err(ActionError::Manager(String::from("quota exceeded"))));
    assert_eq!(session.acquire_calls, 1);
}

#[test]
fn drop_completes_with_no_payload_on_success() {
    let mut session = StubSession::new(true, true);
    session.bound_token = Some(String::from("abc123"));
    let r = drop_token::action::<StubSession, TestRole>(&mut session);
    assert_eq!(r, Ok(()));
    assert_eq!(session.drop_calls, 1);
}

#[test]
fn drop_surfaces_manager_error_without_completion() {
    let mut session = StubSession::new(true, true);
    let r = drop_token::action::<StubSession, TestRole>(&mut session);
    assert_eq!(r, Err(ActionError::Manager(String::from("no token bound"))));
    assert_eq!(session.drop_calls, 1);
}

#[test]
fn drop_twice_fails_the_second_time() {
    let mut session = StubSession::new(true, true);
    let acquired = acquire_new::action::<StubSession, TestRole>(&mut session);
    assert_eq!(acquired, Ok(acquire_new::Out { token: String::from("abc123") }));
    let first = drop_token::action::<StubSession, TestRole>(&mut session);
    assert_eq!(first, Ok(()));
    let second = drop_token::action::<StubSession, TestRole>(&mut session);
    assert_eq!(
        second,
        Err(ActionError::Manager(String::from("no token bound")))
    );
    assert_eq!(session.drop_calls, 2);
}

#[test]
fn route_recognizes_the_three_actions() {
    let service: TokenService<TestRole> = TokenService::new();
    assert_eq!(service.route("do-login"), Ok(Action::DoLogin));
    assert_eq!(service.route("acquire-new"), Ok(Action::AcquireNew));
    assert_eq!(service.route("drop-token"), Ok(Action::DropToken));
}

#[test]
fn route_rejects_unknown_action_names() {
    let service: TokenService<TestRole> = TokenService::new();
    assert_eq!(service.route("do-logout"), Err(ActionError::ActionNotFound));
    assert_eq!(service.route(""), Err(ActionError::ActionNotFound));
    assert_eq!(service.route("do-login "), Err(ActionError::ActionNotFound));
}
