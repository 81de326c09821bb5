//! Revocation-aware execution lifecycle: may an execution that holds a
//! permit go on, given the current authority and authorization?

use crate::domain::{Authority, AuthorityStatus, Authorization, AuthorizationStatus};
use crate::execution::ExecutionPermit;
use vstd::prelude::*;

verus! {

#[derive(Debug, Clone, Copy, PartialEq, Eq, Structural)]
pub enum ExecutionDisposition {
    Continue,
    Stop,
    Reassess,
}

#[derive(Debug, Clone, Copy, PartialEq, Eq, Structural)]
pub enum LifecycleReason {
    ActiveAuthority,
    AuthorityMismatch,
    SuspendedAuthority,
    RevokedAuthority,
    ExpiredAuthority,
    AuthorizationRevoked,
    AuthorizationSuspended,
    AuthorizationExpired,
    AuthorizationSuperseded,
}

/// The lifecycle table. Identity bindings come first (authorization ↔
/// authority, then permit ↔ authorization); then the authorization status;
/// only an active authorization defers to the authority status.
pub open spec fn lifecycle_outcome(authority: Authority, authorization: Authorization, permit_authorization: crate::domain::AuthorizationId) -> (ExecutionDisposition, LifecycleReason) {
    if authorization.authority_id != authority.id || permit_authorization != authorization.id {
        (ExecutionDisposition::Stop, LifecycleReason::AuthorityMismatch)
    } else {
        match authorization.status {
            AuthorizationStatus::Revoked => (ExecutionDisposition::Stop, LifecycleReason::AuthorizationRevoked),
            AuthorizationStatus::Suspended => (ExecutionDisposition::Reassess, LifecycleReason::AuthorizationSuspended),
            AuthorizationStatus::Expired => (ExecutionDisposition::Stop, LifecycleReason::AuthorizationExpired),
            AuthorizationStatus::Superseded => (ExecutionDisposition::Stop, LifecycleReason::AuthorizationSuperseded),
            AuthorizationStatus::Active => match authority.status {
                AuthorityStatus::Active => (ExecutionDisposition::Continue, LifecycleReason::ActiveAuthority),
                AuthorityStatus::Suspended => (ExecutionDisposition::Reassess, LifecycleReason::SuspendedAuthority),
                AuthorityStatus::Revoked => (ExecutionDisposition::Stop, LifecycleReason::RevokedAuthority),
                AuthorityStatus::Expired => (ExecutionDisposition::Stop, LifecycleReason::ExpiredAuthority),
            },
        }
    }
}

/// Evaluates the lifecycle of an execution that holds `permit`.
pub fn evaluate(authority: &Authority, authorization: &Authorization, permit: &ExecutionPermit) -> (outcome: (ExecutionDisposition, LifecycleReason))
    ensures
        outcome == lifecycle_outcome(*authority, *authorization, permit@.authorization_id),
        // An execution continues only when every binding holds and both the
        // authorization and the authority are active.
        (outcome.0 == ExecutionDisposition::Continue) == (
            authorization.authority_id == authority.id
            && permit@.authorization_id == authorization.id
            && authorization.status == AuthorizationStatus::Active
            && authority.status == AuthorityStatus::Active),
        // Revocation and expiration stop, of the authority or of the
        // authorization; a suspended authorization is sent to reassessment
        // whatever the authority's status.
        authority.status == AuthorityStatus::Revoked && authorization.status != AuthorizationStatus::Suspended
            ==> outcome.0 == ExecutionDisposition::Stop,
        authority.status == AuthorityStatus::Expired && authorization.status != AuthorizationStatus::Suspended
            ==> outcome.0 == ExecutionDisposition::Stop,
        authorization.status == AuthorizationStatus::Revoked ==> outcome.0 == ExecutionDisposition::Stop,
        authorization.status == AuthorizationStatus::Expired ==> outcome.0 == ExecutionDisposition::Stop,
        authorization.status == AuthorizationStatus::Superseded ==> outcome.0 == ExecutionDisposition::Stop,
{
    if authorization.authority_id != authority.id {
        return (ExecutionDisposition::Stop, LifecycleReason::AuthorityMismatch);
    }

    if permit.authorization_id() != authorization.id {
        return (ExecutionDisposition::Stop, LifecycleReason::AuthorityMismatch);
    }

    match authorization.status {
        AuthorizationStatus::Revoked => (ExecutionDisposition::Stop, LifecycleReason::AuthorizationRevoked),
        AuthorizationStatus::Suspended => (ExecutionDisposition::Reassess, LifecycleReason::AuthorizationSuspended),
        AuthorizationStatus::Expired => (ExecutionDisposition::Stop, LifecycleReason::AuthorizationExpired),
        AuthorizationStatus::Superseded => (ExecutionDisposition::Stop, LifecycleReason::AuthorizationSuperseded),
        AuthorizationStatus::Active => match authority.status {
            AuthorityStatus::Active => (ExecutionDisposition::Continue, LifecycleReason::ActiveAuthority),
            AuthorityStatus::Suspended => (ExecutionDisposition::Reassess, LifecycleReason::SuspendedAuthority),
            AuthorityStatus::Revoked => (ExecutionDisposition::Stop, LifecycleReason::RevokedAuthority),
            AuthorityStatus::Expired => (ExecutionDisposition::Stop, LifecycleReason::ExpiredAuthority),
        },
    }
}

} // verus!
