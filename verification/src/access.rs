//! Who may act on which company: the session's view of the user and the
//! authorization checks every handler runs first.

use vstd::prelude::*;
use crate::ids::ObjectId;
use crate::models::UserRole;

verus! {

/// Outcome of a rejected request, mapped to an HTTP status at the edge.
#[derive(Debug, Clone, Copy, PartialEq, Eq, Structural)]
pub enum RequestError {
    BadRequest,
    Forbidden,
    NotFound,
    Conflict,
    Internal,
}

pub open spec fn request_error_code(e: RequestError) -> u16 {
    match e {
        RequestError::BadRequest => 400,
        RequestError::Forbidden => 403,
        RequestError::NotFound => 404,
        RequestError::Conflict => 409,
        RequestError::Internal => 500,
    }
}

impl RequestError {
    /// HTTP status code of the rejection.
    pub fn status_code(&self) -> (c: u16)
        ensures
            c == request_error_code(*self),
    {
        match self {
            RequestError::BadRequest => 400,
            RequestError::Forbidden => 403,
            RequestError::NotFound => 404,
            RequestError::Conflict => 409,
            RequestError::Internal => 500,
        }
    }
}

/// What a request knows about its authenticated user: the company it is
/// working in, and the companies it belongs to with its role in each
/// (`company_roles[i]` is the role in `company_ids[i]`).
#[derive(Debug, Clone)]
pub struct ActiveSession {
    pub email: String,
    pub active_company_id: ObjectId,
    pub active_role: UserRole,
    pub company_name: String,
    pub company_ids: Vec<ObjectId>,
    pub company_roles: Vec<UserRole>,
}

/// Whether the user is an admin of `company`: some membership pairs that
/// company with the admin role.
pub open spec fn admin_of(ids: Seq<ObjectId>, roles: Seq<UserRole>, company: ObjectId) -> bool {
    exists|i: int|
        0 <= i < ids.len() && i < roles.len() && #[trigger] ids[i].bytes@ == company.bytes@
            && roles[i] == UserRole::Admin
}

/// Whether `company` is among the user's companies.
pub open spec fn member_of(ids: Seq<ObjectId>, company: ObjectId) -> bool {
    exists|i: int| 0 <= i < ids.len() && #[trigger] ids[i].bytes@ == company.bytes@
}

impl ActiveSession {
    pub fn is_admin(&self) -> (b: bool)
        ensures
            b == (self.active_role == UserRole::Admin),
    {
        self.active_role.is_admin()
    }
}

/// The active company, for admins only.
pub fn require_admin_active(session: &ActiveSession) -> (r: Result<ObjectId, RequestError>)
    ensures
        session.active_role == UserRole::Admin ==> r == Ok::<ObjectId, RequestError>(
            session.active_company_id,
        ),
        session.active_role != UserRole::Admin ==> r == Err::<ObjectId, RequestError>(
            RequestError::Forbidden,
        ),
{
    if !session.is_admin() {
        return Err(RequestError::Forbidden);
    }
    Ok(session.active_company_id)
}

/// A record may only be touched from the company that owns it.
pub fn ensure_same_company(entity_company: &ObjectId, active_company: &ObjectId) -> (r: Result<
    (),
    RequestError,
>)
    ensures
        r is Ok <==> entity_company.bytes@ == active_company.bytes@,
        r matches Err(e) ==> e == RequestError::Forbidden,
{
    if !entity_company.same_as(active_company) {
        Err(RequestError::Forbidden)
    } else {
        Ok(())
    }
}

/// Whether the user administers `company_id` (memberships paired position by position).
pub fn has_admin_role_for(session: &ActiveSession, company_id: &ObjectId) -> (b: bool)
    ensures
        b == admin_of(session.company_ids@, session.company_roles@, *company_id),
{
    let n = if session.company_ids.len() < session.company_roles.len() {
        session.company_ids.len()
    } else {
        session.company_roles.len()
    };
    let mut i: usize = 0;
    while i < n
        invariant
            i <= n,
            n <= session.company_ids@.len(),
            n <= session.company_roles@.len(),
            n == session.company_ids@.len() || n == session.company_roles@.len(),
            forall|j: int|
                0 <= j < i ==> !(#[trigger] session.company_ids@[j].bytes@ == company_id.bytes@
                    && session.company_roles@[j] == UserRole::Admin),
        decreases n - i,
    {
        if session.company_ids[i].same_as(company_id) && session.company_roles[i].is_admin() {
            return true;
        }
        i = i + 1;
    }
    false
}

/// Company-scoped admin check used by the CFDI download endpoints.
pub fn require_company_admin(session: &ActiveSession, company_id: &ObjectId) -> (r: Result<
    (),
    RequestError,
>)
    ensures
        r is Ok <==> admin_of(session.company_ids@, session.company_roles@, *company_id),
        r matches Err(e) ==> e == RequestError::Forbidden,
{
    if has_admin_role_for(session, company_id) {
        Ok(())
    } else {
        Err(RequestError::Forbidden)
    }
}

/// A company may be deleted only by one of its admins, and never while it is
/// the session's active company.
pub fn check_company_delete(session: &ActiveSession, company_id: &ObjectId) -> (r: Result<(), RequestError>)
    ensures
        r is Ok <==> company_id.bytes@ != session.active_company_id.bytes@
            && admin_of(session.company_ids@, session.company_roles@, *company_id),
        r matches Err(e) ==> e == RequestError::Forbidden,
{
    if company_id.same_as(&session.active_company_id) {
        return Err(RequestError::Forbidden);
    }
    require_company_admin(session, company_id)
}

/// A user may be assigned to records of a company only when it belongs to it.
pub fn user_in_company(company_ids: &Vec<ObjectId>, active_company: &ObjectId) -> (r: Result<
    (),
    RequestError,
>)
    ensures
        r is Ok <==> member_of(company_ids@, *active_company),
        r matches Err(e) ==> e == RequestError::Forbidden,
{
    let mut i: usize = 0;
    while i < company_ids.len()
        invariant
            i <= company_ids@.len(),
            forall|j: int|
                0 <= j < i ==> !(#[trigger] company_ids@[j].bytes@ == active_company.bytes@),
        decreases company_ids.len() - i,
    {
        if company_ids[i].same_as(active_company) {
            return Ok(());
        }
        i = i + 1;
    }
    Err(RequestError::Forbidden)
}

/// What looking up a referenced record returned: the company that owns it,
/// no such record, or a failed lookup.
#[derive(Debug, Clone, Copy)]
pub enum RefLookup {
    Found(ObjectId),
    Missing,
    Failed,
}

/// A referenced record (category, account, contact, plan, entry) must exist
/// and belong to the active company.
pub fn check_company_ref(lookup: &RefLookup, active_company: &ObjectId) -> (r: Result<(), RequestError>)
    ensures
        match *lookup {
            RefLookup::Found(owner) => if owner.bytes@ == active_company.bytes@ {
                r is Ok
            } else {
                r == Err::<(), RequestError>(RequestError::Forbidden)
            },
            RefLookup::Missing => r == Err::<(), RequestError>(RequestError::BadRequest),
            RefLookup::Failed => r == Err::<(), RequestError>(RequestError::Internal),
        },
{
    match lookup {
        RefLookup::Found(owner) => ensure_same_company(owner, active_company),
        RefLookup::Missing => Err(RequestError::BadRequest),
        RefLookup::Failed => Err(RequestError::Internal),
    }
}

} // verus!
