//! AUTHORIZATION → EXECUTION PERMIT: no execution without a permit.

use crate::domain::{
    copy_scope, scope_within, AuthorizationId, Authorization, AuthorizationStatus, Scope, ScopeView,
};
use crate::text::{contains_text, is_blank};
use vstd::prelude::*;

verus! {

#[derive(Debug, Clone, PartialEq, Eq)]
pub enum ExecutionGateError {
    ScopeMismatch,
    EmptyOperation,
    AuthorizationInactive,
}

/// An operation requested within a scope.
#[derive(Debug, Clone, PartialEq, Eq)]
pub struct ExecutionRequest {
    pub operation: String,
    pub scope: Scope,
}

pub ghost struct RequestView {
    pub operation: Seq<char>,
    pub scope: ScopeView,
}

impl View for ExecutionRequest {
    type V = RequestView;

    open spec fn view(&self) -> RequestView {
        RequestView { operation: self.operation@, scope: self.scope@ }
    }
}

/// A copy of an execution request with the same view.
pub fn copy_request(request: &ExecutionRequest) -> (copy: ExecutionRequest)
    ensures
        copy@ == request@,
{
    ExecutionRequest { operation: request.operation.clone(), scope: copy_scope(&request.scope) }
}

/// Evidence that an authorization admitted an execution request.
/// Only `gate` creates one.
#[derive(Debug, Clone, PartialEq, Eq)]
pub struct ExecutionPermit {
    authorization_id: AuthorizationId,
    request: ExecutionRequest,
}

pub ghost struct PermitView {
    pub authorization_id: AuthorizationId,
    pub request: ExecutionRequest,
}

impl View for ExecutionPermit {
    type V = PermitView;

    closed spec fn view(&self) -> PermitView {
        PermitView { authorization_id: self.authorization_id, request: self.request }
    }
}

impl ExecutionPermit {
    pub fn authorization_id(&self) -> (id: AuthorizationId)
        ensures
            id == self@.authorization_id,
    {
        self.authorization_id
    }

    pub fn request(&self) -> (request: &ExecutionRequest)
        ensures
            *request == self@.request,
    {
        &self.request
    }
}

/// Why an execution request is refused, in the order the checks apply;
/// `None` when a permit is owed.
pub open spec fn gate_error(authorization: Authorization, request: ExecutionRequest) -> Option<ExecutionGateError> {
    if request.operation@.len() == 0 {
        Some(ExecutionGateError::EmptyOperation)
    } else if authorization.status != AuthorizationStatus::Active {
        Some(ExecutionGateError::AuthorizationInactive)
    } else if !scope_within(request.scope@, authorization.scope@) || !request.scope@.operations.contains(request.operation@) {
        Some(ExecutionGateError::ScopeMismatch)
    } else {
        None
    }
}

/// Creates an execution permit bound to the authorization, only for a
/// non-empty operation that the request's scope names, within the scope of an
/// active authorization.
pub fn gate(authorization: &Authorization, request: ExecutionRequest) -> (result: Result<ExecutionPermit, ExecutionGateError>)
    ensures
        gate_error(*authorization, request) matches Some(e) ==> result == Err::<ExecutionPermit, ExecutionGateError>(e),
        gate_error(*authorization, request) is None ==> (result matches Ok(permit)
            && permit@ == (PermitView { authorization_id: authorization.id, request })),
        result is Ok <==> {
            &&& request.operation@.len() > 0
            &&& authorization.status == AuthorizationStatus::Active
            &&& request.scope.target@ == authorization.scope.target@
            &&& request.scope.territory@ == authorization.scope.territory@
            &&& request.scope.purpose@ == authorization.scope.purpose@
            &&& forall|i: int| 0 <= i < request.scope@.operations.len()
                ==> authorization.scope@.operations.contains(#[trigger] request.scope@.operations[i])
            &&& request.scope@.operations.contains(request.operation@)
        },
{
    proof {
        permit_owed_exactly_for_contained_requests(*authorization, request);
    }
    if is_blank(&request.operation) {
        return Err(ExecutionGateError::EmptyOperation);
    }

    if authorization.status != AuthorizationStatus::Active {
        return Err(ExecutionGateError::AuthorizationInactive);
    }

    if !authorization.scope.contains(&request.scope) || !contains_text(&request.scope.operations, &request.operation) {
        return Err(ExecutionGateError::ScopeMismatch);
    }

    Ok(ExecutionPermit { authorization_id: authorization.id, request })
}

/// A permit is owed exactly when the operation is not empty, the
/// authorization is active, and the request's scope is contained in the
/// authorization's: the same target, territory and purpose, each requested
/// operation among the authorized ones (a narrower scope is enough), and the
/// operation among the requested ones.
pub proof fn permit_owed_exactly_for_contained_requests(authorization: Authorization, request: ExecutionRequest)
    ensures
        gate_error(authorization, request) is None <==> {
            &&& request.operation@.len() > 0
            &&& authorization.status == AuthorizationStatus::Active
            &&& request.scope.target@ == authorization.scope.target@
            &&& request.scope.territory@ == authorization.scope.territory@
            &&& request.scope.purpose@ == authorization.scope.purpose@
            &&& forall|i: int| 0 <= i < request.scope@.operations.len()
                ==> authorization.scope@.operations.contains(#[trigger] request.scope@.operations[i])
            &&& request.scope@.operations.contains(request.operation@)
        },
{
}

/// Scope containment is transitive.
pub proof fn scope_within_is_transitive(a: ScopeView, b: ScopeView, c: ScopeView)
    requires
        scope_within(a, b),
        scope_within(b, c),
    ensures
        scope_within(a, c),
{
    assert forall|i: int| 0 <= i < a.operations.len() implies c.operations.contains(#[trigger] a.operations[i]) by {
        let j = choose|j: int| 0 <= j < b.operations.len() && b.operations[j] == a.operations[i];
        assert(c.operations.contains(b.operations[j]));
    }
}

/// No execution outside authority: a request admitted by an
/// authorization whose scope lies within its authority's scope asks for an
/// operation of that authority, within the authority's scope.
pub proof fn permitted_request_lies_within_authority(authority_scope: ScopeView, authorization: Authorization, request: ExecutionRequest)
    requires
        scope_within(authorization.scope@, authority_scope),
        gate_error(authorization, request) is None,
    ensures
        scope_within(request.scope@, authority_scope),
        authority_scope.operations.contains(request.operation@),
{
    scope_within_is_transitive(request.scope@, authorization.scope@, authority_scope);
    let i = choose|i: int| 0 <= i < request.scope@.operations.len() && request.scope@.operations[i] == request.operation@;
    assert(authority_scope.operations.contains(request.scope@.operations[i]));
}

} // verus!
