//! How the command-line client's stored state changes: choosing a company,
//! finding the chosen one again, and ending a session.

use vstd::prelude::*;
use vstd::string::StrSliceExecFns;
use vstd::string::StringExecFns;
use crate::cli::{CredentialState, derive_tenant_host, tenant_host_spec, validate_object_id};
use crate::ids::is_object_id_text;
use crate::text::ascii_lower_code;

verus! {

/// A company the signed-in user may work with, as the server lists it.
#[derive(Debug, Clone)]
pub struct CompanySummary {
    pub id: String,
    pub slug: String,
    pub name: String,
}

/// Whether two texts are equal when ASCII letters are compared without case.
pub open spec fn eq_ignore_ascii_case(a: Seq<char>, b: Seq<char>) -> bool {
    a.len() == b.len() && forall|i: int| 0 <= i < a.len() ==> #[trigger] ascii_lower_code(a[i]) == ascii_lower_code(b[i])
}

fn lower_code(c: char) -> (r: u32)
    ensures
        r == ascii_lower_code(c),
{
    let x = c as u32;
    if 65 <= x && x <= 90 {
        x + 32
    } else {
        x
    }
}

/// Compares two texts without ASCII case.
pub fn same_ignoring_ascii_case(a: &str, b: &str) -> (r: bool)
    ensures
        r == eq_ignore_ascii_case(a@, b@),
{
    let n = a.unicode_len();
    if n != b.unicode_len() {
        return false;
    }
    let mut i: usize = 0;
    while i < n
        invariant
            i <= n,
            n == a@.len(),
            n == b@.len(),
            forall|j: int| 0 <= j < i ==> #[trigger] ascii_lower_code(a@[j]) == ascii_lower_code(b@[j]),
        decreases n - i,
    {
        if lower_code(a.get_char(i)) != lower_code(b.get_char(i)) {
            return false;
        }
        i = i + 1;
    }
    true
}

/// The position of the first company whose slug matches `slug` without ASCII case.
pub open spec fn company_index(cs: Seq<CompanySummary>, slug: Seq<char>, i: int) -> Option<int>
    decreases cs.len() - i,
{
    if i < 0 || i >= cs.len() {
        None
    } else if eq_ignore_ascii_case(cs[i].slug@, slug) {
        Some(i)
    } else {
        company_index(cs, slug, i + 1)
    }
}

/// Finds the company a slug names, ignoring ASCII case.
pub fn find_company(companies: &Vec<CompanySummary>, slug: &str) -> (r: Option<usize>)
    ensures
        match company_index(companies@, slug@, 0) {
            Some(i) => r matches Some(j) && j as int == i && j < companies@.len(),
            None => r is None,
        },
{
    let mut i: usize = 0;
    while i < companies.len()
        invariant
            i <= companies@.len(),
            company_index(companies@, slug@, 0) == company_index(companies@, slug@, i as int),
        decreases companies.len() - i,
    {
        if same_ignoring_ascii_case(companies[i].slug.as_str(), slug) {
            return Some(i);
        }
        i = i + 1;
    }
    None
}

/// `company use`: remembers the company a slug names (as the server spells
/// it) and the host of that tenant. Nothing changes when it fails.
pub fn use_company(state: &mut CredentialState, companies: &Vec<CompanySummary>, slug: &str) -> (r: Result<usize, String>)
    ensures
        company_index(companies@, slug@, 0) is None ==> (r matches Err(m)
            && m@ == "company '"@ + slug@ + "' is not available to this user"@ && *final(state) == *old(state)),
        company_index(companies@, slug@, 0) matches Some(i) ==> match tenant_host_spec(old(state).base_url@, companies@[i].slug@) {
            Ok(host) => {
                &&& r matches Ok(j) && j as int == i
                &&& final(state).company_slug matches Some(s) && s@ == companies@[i].slug@
                &&& final(state).tenant_host matches Some(h) && h@ == host
                &&& final(state).base_url == old(state).base_url
                &&& final(state).email == old(state).email
                &&& final(state).totp_secret == old(state).totp_secret
                &&& final(state).session_cookie == old(state).session_cookie
                &&& final(state).last_login_at == old(state).last_login_at
            },
            Err(m) => r matches Err(e) && e@ == m && *final(state) == *old(state),
        },
{
    let i = match find_company(companies, slug) {
        Some(i) => i,
        None => {
            let mut m = String::from_str("company '");
            m.append(slug);
            m.append("' is not available to this user");
            return Err(m);
        },
    };
    let host = derive_tenant_host(state.base_url.as_str(), companies[i].slug.as_str())?;
    state.company_slug = Some(companies[i].slug.clone());
    state.tenant_host = Some(host);
    Ok(i)
}

/// The identifier of the company chosen earlier, found again in the
/// server's current list.
pub fn selected_company_id(state: &CredentialState, companies: &Vec<CompanySummary>) -> (r: Result<String, String>)
    ensures
        state.company_slug is None ==> (r matches Err(m) && m@ == "company selection is required; run spcli company use <slug>"@),
        state.company_slug matches Some(s) ==> match company_index(companies@, s@, 0) {
            None => r matches Err(m) && m@ == "selected company '"@ + s@ + "' is no longer available"@,
            Some(i) => if is_object_id_text(companies@[i].id@) {
                r matches Ok(id) && id@ == companies@[i].id@
            } else {
                r matches Err(m) && m@ == "selected company id"@ + " must be a 24-character ObjectId"@
            },
        },
{
    let slug = match &state.company_slug {
        Some(s) => s,
        None => return Err(String::from_str("company selection is required; run spcli company use <slug>")),
    };
    let i = match find_company(companies, slug.as_str()) {
        Some(i) => i,
        None => {
            let mut m = String::from_str("selected company '");
            m.append(slug.as_str());
            m.append("' is no longer available");
            return Err(m);
        },
    };
    validate_object_id(companies[i].id.as_str(), "selected company id")?;
    Ok(companies[i].id.clone())
}

/// `logout`: forgets the session and when it began; the login details and
/// the chosen company stay.
pub fn clear_session(state: &mut CredentialState)
    ensures
        final(state).session_cookie is None,
        final(state).last_login_at is None,
        final(state).base_url == old(state).base_url,
        final(state).email == old(state).email,
        final(state).totp_secret == old(state).totp_secret,
        final(state).company_slug == old(state).company_slug,
        final(state).tenant_host == old(state).tenant_host,
{
    state.session_cookie = None;
    state.last_login_at = None;
}

/// The marker of a company in the listing: `*` for the chosen one.
pub fn company_marker(slug: &str, chosen: &Option<String>) -> (r: &'static str)
    ensures
        (chosen matches Some(c) && c@ == slug@) ==> r@ == "*"@,
        !(chosen matches Some(c) && c@ == slug@) ==> r@ == " "@,
{
    match chosen {
        Some(c) => if crate::text::same_text(c.as_str(), slug) {
            "*"
        } else {
            " "
        },
        None => " ",
    }
}

} // verus!
