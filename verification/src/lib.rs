//! A per-session token-authentication service.
//!
//! It answers three named actions against a live session: authenticate
//! by presenting a token (`do-login`), issue a fresh token (`acquire-new`),
//! and invalidate the session's current token (`drop-token`). Each action
//! checks a permission tag on the session before any state-mutating call is
//! made through the session's token-manager capability.

use vstd::prelude::*;

pub mod token;

verus! {

/// An abstract tag identifying which kind of identity a session may assume
/// after successful authentication. This crate is polymorphic over it and never
/// inspects its internals; the host crate supplies the concrete type.
pub trait Role {}

} // verus!
