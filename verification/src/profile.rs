//! The signed-in user's own profile: what the API shows of it and the rules
//! for changing e-mail and secret.

use vstd::prelude::*;
use vstd::string::StrSliceExecFns;
use vstd::string::StringExecFns;
use crate::ids::{ObjectId, hex_text};
use crate::models::UserRole;
use crate::text::{trim, trim_spec};

verus! {

/// The profile as the API returns it.
#[derive(Debug, Clone)]
pub struct AccountData {
    pub id: String,
    pub email: String,
}

/// A profile change as the API receives it.
#[derive(Debug, Clone)]
pub struct AccountPayload {
    pub email: String,
    pub secret: String,
}

/// The API view of the signed-in user.
pub fn account_data(user_id: &ObjectId, email: String) -> (r: AccountData)
    ensures
        r.id@ == hex_text(user_id.bytes@),
        r.email == email,
{
    AccountData { id: user_id.to_hex(), email }
}

/// A profile change needs both an e-mail and a secret besides whitespace;
/// both are stored trimmed.
pub fn check_profile(email: &str, secret: &str) -> (r: Result<(String, String), String>)
    ensures
        trim_spec(email@).len() > 0 && trim_spec(secret@).len() > 0 ==> (r matches Ok(p)
            && p.0@ == trim_spec(email@) && p.1@ == trim_spec(secret@)),
        !(trim_spec(email@).len() > 0 && trim_spec(secret@).len() > 0) ==> (r matches Err(m)
            && m@ == "Email y secreto son obligatorios"@),
{
    let e = trim(email);
    let s = trim(secret);
    if e.unicode_len() == 0 || s.unicode_len() == 0 {
        return Err(String::from_str("Email y secreto son obligatorios"));
    }
    Ok((String::from_str(e), String::from_str(s)))
}

/// The notice of the profile screen after a save.
pub fn saved_message(saved: Option<bool>) -> (r: Option<String>)
    ensures
        saved == Some(true) ==> (r matches Some(m) && m@ == "Tu información se guardó correctamente"@),
        saved != Some(true) ==> r is None,
{
    match saved {
        Some(true) => Some(String::from_str("Tu información se guardó correctamente")),
        _ => None,
    }
}

/// The user's memberships as stored with a profile change: each company with
/// the role at the same position, as far as both lists go.
pub fn company_roles(ids: &Vec<ObjectId>, roles: &Vec<UserRole>) -> (r: Vec<(ObjectId, UserRole)>)
    ensures
        r@.len() == if ids@.len() < roles@.len() { ids@.len() } else { roles@.len() },
        forall|i: int| 0 <= i < r@.len() ==> #[trigger] r@[i] == (ids@[i], roles@[i]),
{
    let n = if ids.len() < roles.len() { ids.len() } else { roles.len() };
    let mut r: Vec<(ObjectId, UserRole)> = Vec::new();
    let mut i: usize = 0;
    while i < n
        invariant
            i <= n,
            n <= ids@.len(),
            n <= roles@.len(),
            n == if ids@.len() < roles@.len() { ids@.len() } else { roles@.len() },
            r@.len() == i,
            forall|j: int| 0 <= j < i ==> #[trigger] r@[j] == (ids@[j], roles@[j]),
        decreases n - i,
    {
        r.push((ids[i], roles[i]));
        i = i + 1;
    }
    r
}

} // verus!
