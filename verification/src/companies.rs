//! Companies (tenants): slug rules, the create/update payload and the
//! company record returned by the API.

use vstd::prelude::*;
use vstd::string::StrSliceExecFns;
use vstd::string::StringExecFns;
use crate::access::{ActiveSession, RequestError};
use crate::ids::{ObjectId, hex_text};
use crate::text::{trim, trim_spec, clean_opt, clean_opt_spec, opt_view};

verus! {

pub open spec fn is_slug_char(c: char) -> bool {
    ('a' <= c && c <= 'z') || ('0' <= c && c <= '9') || c == '-'
}

/// A slug is made of lower-case ASCII letters, digits and dashes, does not
/// start or end with a dash, and has at most 64 characters.
pub open spec fn is_valid_slug(s: Seq<char>) -> bool {
    &&& forall|i: int| 0 <= i < s.len() ==> is_slug_char(#[trigger] s[i])
    &&& s.len() <= 64
    &&& s.len() > 0 ==> s[0] != '-' && s.last() != '-'
}

/// The empty slug is accepted too: the name is slugified instead.
pub fn validate_slug(slug: &str) -> (r: Result<(), String>)
    ensures
        r is Ok <==> (slug@.len() == 0 || is_valid_slug(slug@)),
        r matches Err(m) ==> m@
            == "Slug inválido. Usa solo minúsculas, números y guiones, sin iniciar ni terminar con guion (máx 64 caracteres)."@,
{
    let n = slug.unicode_len();
    if n == 0 {
        return Ok(());
    }
    let mut i: usize = 0;
    let mut all_ok = true;
    while i < n
        invariant
            i <= n,
            n == slug@.len(),
            all_ok == (forall|j: int| 0 <= j < i ==> is_slug_char(#[trigger] slug@[j])),
        decreases n - i,
    {
        let c = slug.get_char(i);
        let ok = ('a' <= c && c <= 'z') || ('0' <= c && c <= '9') || c == '-';
        if !ok {
            all_ok = false;
        }
        i = i + 1;
    }
    let is_valid = all_ok && n <= 64 && slug.get_char(0) != '-' && slug.get_char(n - 1) != '-';
    if !is_valid {
        return Err(
            String::from_str(
                "Slug inválido. Usa solo minúsculas, números y guiones, sin iniciar ni terminar con guion (máx 64 caracteres).",
            ),
        );
    }
    Ok(())
}

/// URL slug the `slug` crate derives from a text.
pub uninterp spec fn slugify_of(s: Seq<char>) -> Seq<char>;

/// Calls `slug::slugify`. Its documentation promises a result made of `a-z`,
/// `0-9` and `-`, never starting or ending with `-`; the exact text is named.
#[verifier::external_body]
fn slugify(s: &str) -> (r: String)
    ensures
        r@ == slugify_of(s@),
        forall|i: int| 0 <= i < r@.len() ==> is_slug_char(#[trigger] r@[i]),
        r@.len() > 0 ==> r@[0] != '-' && r@.last() != '-',
{
    slug::slugify(s)
}

/// Body of a create or update request for a company.
#[derive(Debug, Clone)]
pub struct CompanyPayload {
    pub name: String,
    pub slug: Option<String>,
    pub default_currency: Option<String>,
    pub is_active: Option<bool>,
    pub notes: Option<String>,
}

/// A company payload once checked: name, slug, currency, active flag, notes.
pub open spec fn company_fields_spec(p: CompanyPayload) -> Option<(Seq<char>, Seq<char>, Seq<char>, bool, Option<Seq<char>>)> {
    let name = trim_spec(p.name@);
    let slug = match p.slug {
        Some(s) => trim_spec(s@),
        None => Seq::empty(),
    };
    if name.len() == 0 || !(slug.len() == 0 || is_valid_slug(slug)) {
        None
    } else {
        let final_slug = if slug.len() == 0 {
            slugify_of(name)
        } else {
            slug
        };
        let currency = match p.default_currency {
            Some(c) => if trim_spec(c@).len() > 0 {
                trim_spec(c@)
            } else {
                "MXN"@
            },
            None => "MXN"@,
        };
        let active = match p.is_active {
            Some(b) => b,
            None => true,
        };
        Some((name, final_slug, currency, active, clean_opt_spec(opt_view(p.notes))))
    }
}

pub open spec fn company_fields_view(t: (String, String, String, bool, Option<String>)) -> (Seq<char>, Seq<char>, Seq<char>, bool, Option<Seq<char>>) {
    (t.0@, t.1@, t.2@, t.3, opt_view(t.4))
}

/// Checks a company payload: a name is required, an explicit slug must be
/// valid, a missing slug is derived from the name, the currency defaults to
/// MXN, the company is active unless said otherwise, blank notes are dropped.
pub fn parse_company_payload(payload: CompanyPayload) -> (r: Result<
    (String, String, String, bool, Option<String>),
    RequestError,
>)
    ensures
        match company_fields_spec(payload) {
            Some(f) => r matches Ok(t) && company_fields_view(t) == f,
            None => r == Err::<(String, String, String, bool, Option<String>), RequestError>(
                RequestError::BadRequest,
            ),
        },
        r matches Ok(t) ==> forall|i: int| 0 <= i < t.1@.len() ==> crate::companies::is_slug_char(#[trigger] t.1@[i]),
        r is Ok <==> trim_spec(payload.name@).len() > 0 && (payload.slug matches Some(s) ==> (trim_spec(s@).len() == 0 || is_valid_slug(trim_spec(s@)))),
        r matches Ok(t) ==> t.0@ == trim_spec(payload.name@),
        r matches Ok(t) ==> t.1@ == (if payload.slug is Some && trim_spec(payload.slug->0@).len() > 0 { trim_spec(payload.slug->0@) } else { slugify_of(trim_spec(payload.name@)) }),
        r matches Ok(t) ==> t.2@ == (if payload.default_currency is Some && trim_spec(payload.default_currency->0@).len() > 0 { trim_spec(payload.default_currency->0@) } else { "MXN"@ }),
        r matches Ok(t) ==> t.3 == (if payload.is_active is Some { payload.is_active->0 } else { true }),
        r matches Ok(t) ==> opt_view(t.4) == clean_opt_spec(opt_view(payload.notes)),
        r matches Ok(t) ==> ((payload.notes is Some && trim_spec(payload.notes->0@).len() > 0) ==> (t.4 is Some && t.4->0@ == trim_spec(payload.notes->0@))),
        r matches Ok(t) ==> (t.4 is None <==> (payload.notes is None || trim_spec(payload.notes->0@).len() == 0)),
{
    let ghost p = payload;
    let name = String::from_str(trim(payload.name.as_str()));
    if name.unicode_len() == 0 {
        return Err(RequestError::BadRequest);
    }
    let slug_raw = match payload.slug {
        Some(s) => s,
        None => String::new(),
    };
    let slug = String::from_str(trim(slug_raw.as_str()));
    proof {
        if p.slug is None {
            assert(trim_spec(Seq::<char>::empty()) =~= Seq::<char>::empty());
        }
    }
    if validate_slug(slug.as_str()).is_err() {
        return Err(RequestError::BadRequest);
    }
    let final_slug = if slug.unicode_len() == 0 {
        slugify(name.as_str())
    } else {
        slug
    };
    let default_currency = match payload.default_currency {
        Some(c) => {
            let t = trim(c.as_str());
            if t.unicode_len() > 0 {
                String::from_str(t)
            } else {
                String::from_str("MXN")
            }
        },
        None => String::from_str("MXN"),
    };
    let is_active = match payload.is_active {
        Some(b) => b,
        None => true,
    };
    let notes = clean_opt(payload.notes);
    Ok((name, final_slug, default_currency, is_active, notes))
}

/// A company as the API returns it.
#[derive(Debug, Clone)]
pub struct CompanyData {
    pub id: String,
    pub name: String,
    pub slug: String,
    pub default_currency: String,
    pub is_active: bool,
    pub notes: Option<String>,
    pub is_current: bool,
}

/// A stored company.
#[derive(Debug, Clone)]
pub struct Company {
    pub id: Option<ObjectId>,
    pub name: String,
    pub slug: String,
    pub default_currency: String,
    pub is_active: bool,
    pub notes: Option<String>,
}

/// The API view of a stored company; none for a company without id. The
/// company is current when it is the session's active company.
pub fn company_data(session: &ActiveSession, company: Company) -> (r: Option<CompanyData>)
    ensures
        company.id is None ==> r is None,
        company.id matches Some(id) ==> r matches Some(d) && d.id@ == hex_text(id.bytes@)
            && d.name == company.name && d.slug == company.slug && d.default_currency
            == company.default_currency && d.is_active == company.is_active && d.notes
            == company.notes && d.is_current == (id.bytes@ == session.active_company_id.bytes@),
{
    let id = match company.id {
        Some(id) => id,
        None => return None,
    };
    Some(
        CompanyData {
            id: id.to_hex(),
            name: company.name,
            slug: company.slug,
            default_currency: company.default_currency,
            is_active: company.is_active,
            notes: company.notes,
            is_current: id.same_as(&session.active_company_id),
        },
    )
}

/// A company as the admin form submits it.
#[derive(Debug, Clone)]
pub struct CompanyFormData {
    pub name: String,
    pub slug: Option<String>,
    pub default_currency: String,
    pub is_active: bool,
    pub notes: Option<String>,
}

/// The checked fields of the company form: the slug as typed (trimmed, maybe
/// blank; the form shows it again when it is refused) and `final_slug`, the
/// slug the company is stored and checked for uniqueness under (derived from
/// the name when the typed one is blank).
#[derive(Debug, Clone)]
pub struct CompanyFormFields {
    pub name: String,
    pub slug: String,
    pub final_slug: String,
    pub currency: String,
    pub is_active: bool,
    pub notes: Option<String>,
}

/// Checks the company form: first the slug, then the name.
pub fn parse_company_form(form: &CompanyFormData) -> (r: Result<CompanyFormFields, String>)
    ensures
        ({
            let slug = match form.slug {
                Some(s) => trim_spec(s@),
                None => Seq::<char>::empty(),
            };
            &&& !(slug.len() == 0 || is_valid_slug(slug)) ==> (r matches Err(m) && m@
                == "Slug inválido. Usa solo minúsculas, números y guiones, sin iniciar ni terminar con guion (máx 64 caracteres)."@)
            &&& (slug.len() == 0 || is_valid_slug(slug)) && trim_spec(form.name@).len() == 0
                ==> (r matches Err(m) && m@ == "El nombre es obligatorio"@)
            &&& (slug.len() == 0 || is_valid_slug(slug)) && trim_spec(form.name@).len() > 0 ==> (r matches Ok(f) && {
                &&& f.name@ == trim_spec(form.name@)
                &&& f.slug@ == slug
                &&& f.final_slug@ == (if slug.len() == 0 { slugify_of(trim_spec(form.name@)) } else { slug })
                &&& f.currency@ == (if trim_spec(form.default_currency@).len() == 0 { "MXN"@ } else { trim_spec(form.default_currency@) })
                &&& f.is_active == form.is_active
                &&& opt_view(f.notes) == clean_opt_spec(opt_view(form.notes))
            })
        }),
{
    let slug_raw = match &form.slug {
        Some(s) => s.clone(),
        None => String::new(),
    };
    let slug = String::from_str(trim(slug_raw.as_str()));
    proof {
        if form.slug is None {
            assert(trim_spec(Seq::<char>::empty()) =~= Seq::<char>::empty());
        }
    }
    validate_slug(slug.as_str())?;
    let name = String::from_str(trim(form.name.as_str()));
    if name.unicode_len() == 0 {
        return Err(String::from_str("El nombre es obligatorio"));
    }
    let t = trim(form.default_currency.as_str());
    let currency = if t.unicode_len() == 0 {
        String::from_str("MXN")
    } else {
        String::from_str(t)
    };
    let final_slug = if slug.unicode_len() == 0 {
        slugify(name.as_str())
    } else {
        slug.clone()
    };
    Ok(CompanyFormFields {
        name,
        slug,
        final_slug,
        currency,
        is_active: form.is_active,
        notes: clean_opt(form.notes.clone()),
    })
}

/// A slug is taken when a stored company has it and is not the company being
/// saved (`current`; none when creating). `existing` is the identifier of the
/// company found with that slug, if one was found.
pub fn slug_conflicts(existing: Option<Option<ObjectId>>, current: Option<ObjectId>) -> (b: bool)
    ensures
        b == match existing {
            None => false,
            Some(found) => match (found, current) {
                (Some(f), Some(c)) => f.bytes@ != c.bytes@,
                (None, None) => false,
                _ => true,
            },
        },
{
    match existing {
        None => false,
        Some(found) => match (found, current) {
            (Some(f), Some(c)) => !f.same_as(&c),
            (None, None) => false,
            _ => true,
        },
    }
}

} // verus!
