//! The failure vocabulary: four leaf kinds, each carrying a diagnostic
//! detail, grouped into one union for operations that need no credentials
//! and one for those that do.
use vstd::prelude::*;

verus! {

/// A free-form diagnostic text shared by every leaf error kind.
#[derive(Debug, Clone)]
pub struct BaseError {
    pub detail: String,
}

/// Transport or connectivity failure (timeout, connection reset, DNS).
#[derive(Debug, Clone)]
pub struct NetworkFailure(pub BaseError);

/// Parameters that the implementer rejected before or instead of calling
/// the remote exchange.
#[derive(Debug, Clone)]
pub struct InvalidParams(pub BaseError);

/// A reply from the remote endpoint that is no valid domain result.
#[derive(Debug, Clone)]
pub struct InvalidResponse(pub BaseError);

/// Credentials missing, expired or rejected.
#[derive(Debug, Clone)]
pub struct InvalidAuth(pub BaseError);

impl BaseError {
    pub fn new(detail: String) -> (r: BaseError)
        ensures
            r.detail@ == detail@,
    {
        BaseError { detail }
    }
}

impl NetworkFailure {
    pub fn new(detail: String) -> (r: NetworkFailure)
        ensures
            r.0.detail@ == detail@,
    {
        NetworkFailure(BaseError::new(detail))
    }
}

impl InvalidParams {
    pub fn new(detail: String) -> (r: InvalidParams)
        ensures
            r.0.detail@ == detail@,
    {
        InvalidParams(BaseError::new(detail))
    }
}

impl InvalidResponse {
    pub fn new(detail: String) -> (r: InvalidResponse)
        ensures
            r.0.detail@ == detail@,
    {
        InvalidResponse(BaseError::new(detail))
    }
}

impl InvalidAuth {
    pub fn new(detail: String) -> (r: InvalidAuth)
        ensures
            r.0.detail@ == detail@,
    {
        InvalidAuth(BaseError::new(detail))
    }
}

/// Failures of operations that need no credentials: a credential failure is
/// not among them.
#[derive(Debug, Clone)]
pub enum UnauthedError {
    NetworkFailure(NetworkFailure),
    InvalidParams(InvalidParams),
    InvalidResponse(InvalidResponse),
}

/// Failures of authenticated operations.
#[derive(Debug, Clone)]
pub enum AuthedError {
    NetworkFailure(NetworkFailure),
    InvalidParams(InvalidParams),
    InvalidResponse(InvalidResponse),
    InvalidAuth(InvalidAuth),
}

/// The authenticated failure that an unauthenticated one stands for: the
/// same kind with the same detail.
pub open spec fn lift_unauthed(e: UnauthedError) -> AuthedError {
    match e {
        UnauthedError::NetworkFailure(x) => AuthedError::NetworkFailure(x),
        UnauthedError::InvalidParams(x) => AuthedError::InvalidParams(x),
        UnauthedError::InvalidResponse(x) => AuthedError::InvalidResponse(x),
    }
}

/// The unauthenticated failure that an authenticated one stands for, where
/// it is no credential failure.
pub open spec fn lower_authed(e: AuthedError) -> Option<UnauthedError> {
    match e {
        AuthedError::NetworkFailure(x) => Some(UnauthedError::NetworkFailure(x)),
        AuthedError::InvalidParams(x) => Some(UnauthedError::InvalidParams(x)),
        AuthedError::InvalidResponse(x) => Some(UnauthedError::InvalidResponse(x)),
        AuthedError::InvalidAuth(_) => None,
    }
}

impl UnauthedError {
    pub open spec fn spec_detail(&self) -> Seq<char> {
        match self {
            UnauthedError::NetworkFailure(x) => x.0.detail@,
            UnauthedError::InvalidParams(x) => x.0.detail@,
            UnauthedError::InvalidResponse(x) => x.0.detail@,
        }
    }

    /// The diagnostic text, whatever the kind.
    pub fn detail(&self) -> (r: &String)
        ensures
            r@ == self.spec_detail(),
    {
        match self {
            UnauthedError::NetworkFailure(x) => &x.0.detail,
            UnauthedError::InvalidParams(x) => &x.0.detail,
            UnauthedError::InvalidResponse(x) => &x.0.detail,
        }
    }
}

impl AuthedError {
    pub open spec fn spec_detail(&self) -> Seq<char> {
        match self {
            AuthedError::NetworkFailure(x) => x.0.detail@,
            AuthedError::InvalidParams(x) => x.0.detail@,
            AuthedError::InvalidResponse(x) => x.0.detail@,
            AuthedError::InvalidAuth(x) => x.0.detail@,
        }
    }

    /// The diagnostic text, whatever the kind.
    pub fn detail(&self) -> (r: &String)
        ensures
            r@ == self.spec_detail(),
    {
        match self {
            AuthedError::NetworkFailure(x) => &x.0.detail,
            AuthedError::InvalidParams(x) => &x.0.detail,
            AuthedError::InvalidResponse(x) => &x.0.detail,
            AuthedError::InvalidAuth(x) => &x.0.detail,
        }
    }

    /// Whether the credentials were at fault.
    pub fn is_auth_failure(&self) -> (r: bool)
        ensures
            r == (self is InvalidAuth),
    {
        matches!(self, AuthedError::InvalidAuth(_))
    }

    /// The same failure as an unauthenticated one; `None` for a credential
    /// failure, which has no such counterpart.
    pub fn to_unauthed(self) -> (r: Option<UnauthedError>)
        ensures
            r == lower_authed(self),
    {
        match self {
            AuthedError::NetworkFailure(x) => Some(UnauthedError::NetworkFailure(x)),
            AuthedError::InvalidParams(x) => Some(UnauthedError::InvalidParams(x)),
            AuthedError::InvalidResponse(x) => Some(UnauthedError::InvalidResponse(x)),
            AuthedError::InvalidAuth(_) => None,
        }
    }
}

impl From<UnauthedError> for AuthedError {
    fn from(e: UnauthedError) -> (r: AuthedError)
        ensures
            r == lift_unauthed(e),
    {
        match e {
            UnauthedError::NetworkFailure(x) => AuthedError::NetworkFailure(x),
            UnauthedError::InvalidParams(x) => AuthedError::InvalidParams(x),
            UnauthedError::InvalidResponse(x) => AuthedError::InvalidResponse(x),
        }
    }
}

impl vstd::std_specs::convert::FromSpecImpl<UnauthedError> for AuthedError {
    open spec fn obeys_from_spec() -> bool {
        true
    }

    open spec fn from_spec(e: UnauthedError) -> AuthedError {
        lift_unauthed(e)
    }
}

/// Every unauthenticated failure is a transport failure, a rejected
/// parameter or an unusable reply; lifted into the authenticated union it
/// is never a credential failure, keeps its detail, and lowers back to
/// itself.
pub proof fn lemma_unauthed_has_no_auth_failure(e: UnauthedError)
    ensures
        e is NetworkFailure || e is InvalidParams || e is InvalidResponse,
        !(lift_unauthed(e) is InvalidAuth),
        lift_unauthed(e).spec_detail() == e.spec_detail(),
        lower_authed(lift_unauthed(e)) == Some(e),
{
}

/// An authenticated failure has an unauthenticated counterpart exactly when
/// it is no credential failure, and lifting that counterpart gives it back.
pub proof fn lemma_lower_then_lift(e: AuthedError)
    ensures
        lower_authed(e) is None <==> e is InvalidAuth,
        lower_authed(e) matches Some(u) ==> lift_unauthed(u) == e,
{
}

} // verus!
