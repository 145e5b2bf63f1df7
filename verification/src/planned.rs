//! Planned entries: the admin form, the JSON payloads, and the rules for
//! paying one entry or several at once.

use vstd::prelude::*;
use vstd::string::StrSliceExecFns;
use vstd::string::StringExecFns;
use crate::access::RequestError;
use crate::entries::is_payable;
use crate::fields::{
    datetime_field_spec, opt_id_field_spec, opt_id_view, parse_datetime_field,
    parse_object_id, parse_optional_id_field,
};
use crate::forms::{flow_type_from_text, parse_flow_type, parse_planned_status, planned_status_from_text};
use crate::ids::{ObjectId, is_object_id_text, object_id_bytes};
use crate::models::{FlowType, PlannedStatus};
use crate::numbers::{opt_i32_field_spec, parse_optional_i32_field};
use crate::text::{clean_opt, clean_opt_spec, opt_view, trim, trim_spec, lowercase_text};

verus! {

/// A planned entry as the admin form submits it.
#[derive(Debug, Clone)]
pub struct PlannedEntryFormData {
    pub name: String,
    pub company_id: String,
    pub flow_type: String,
    pub category_id: String,
    pub account_expected_id: String,
    pub contact_id: Option<String>,
    pub project_id: Option<String>,
    pub amount_estimated: String,
    pub due_date: String,
    pub status: String,
    pub recurring_plan_id: Option<String>,
    pub recurring_plan_version: Option<String>,
    pub notes: Option<String>,
}

/// A planned entry as the JSON endpoints receive it. The estimated amount is
/// a float and is not held here: its sign is passed to the parser.
#[derive(Debug, Clone)]
pub struct PlannedEntryPayload {
    pub name: String,
    pub flow_type: String,
    pub category_id: String,
    pub account_expected_id: String,
    pub contact_id: Option<String>,
    pub project_id: Option<String>,
    pub due_date: String,
    pub status: String,
    pub recurring_plan_id: Option<String>,
    pub recurring_plan_version: Option<i32>,
    pub notes: Option<String>,
}

/// The checked fields of a planned entry, before its references are looked up.
#[derive(Debug, Clone)]
pub struct PlannedEntryFields {
    pub name: String,
    pub flow_type: FlowType,
    pub category_id: ObjectId,
    pub account_expected_id: ObjectId,
    pub contact_id: Option<ObjectId>,
    pub project_id: Option<ObjectId>,
    pub recurring_plan_id: Option<ObjectId>,
    pub recurring_plan_version: Option<i32>,
    pub due_date: i64,
    pub status: PlannedStatus,
    pub notes: Option<String>,
}

/// The project or parent identifier of a request: blank is none.
pub open spec fn ref_id_spec(value: Option<Seq<char>>) -> Result<Option<Seq<u8>>, RequestError> {
    match opt_id_field_spec(value, "id"@) {
        Ok(o) => Ok(o),
        Err(_) => Err(RequestError::BadRequest),
    }
}

/// Reads the project or parent identifier of a request: blank is none, and
/// anything else must be an identifier.
pub fn parse_ref_id(value: Option<String>) -> (r: Result<Option<ObjectId>, RequestError>)
    ensures
        match ref_id_spec(opt_view(value)) {
            Ok(o) => r matches Ok(x) && opt_id_view(x) == o,
            Err(e) => r == Err::<Option<ObjectId>, RequestError>(e),
        },
{
    match parse_optional_id_field(value, "id") {
        Ok(o) => Ok(o),
        Err(_) => Err(RequestError::BadRequest),
    }
}

/// When the admin form of a planned entry is accepted (every refusal is a
/// bad request). `amount_is_number` tells whether the amount reads as a number.
pub open spec fn planned_form_accepted(form: PlannedEntryFormData, amount_is_number: bool) -> bool {
    &&& flow_type_from_text(lowercase_text(form.flow_type@)) is Some
    &&& is_object_id_text(form.category_id@)
    &&& is_object_id_text(form.account_expected_id@)
    &&& opt_id_field_spec(opt_view(form.contact_id), "Contacto"@) is Ok
    &&& opt_id_field_spec(opt_view(form.recurring_plan_id), "Plan recurrente"@) is Ok
    &&& opt_i32_field_spec(opt_view(form.recurring_plan_version), "Versión del plan"@) is Ok
    &&& amount_is_number
    &&& datetime_field_spec(form.due_date@, "Fecha de vencimiento"@) is Ok
    &&& planned_status_from_text(form.status@) is Some
    &&& ref_id_spec(opt_view(form.project_id)) is Ok
}

/// The fields an accepted planned entry carries, from the form or the payload.
pub open spec fn planned_fields_match(
    v: PlannedEntryFields,
    name: Seq<char>,
    flow_type: Seq<char>,
    category_id: Seq<char>,
    account_expected_id: Seq<char>,
    contact_id: Option<Seq<char>>,
    project_id: Option<Seq<char>>,
    recurring_plan_id: Option<Seq<char>>,
    recurring_plan_version: Option<i32>,
    due_date: Seq<char>,
    status: Seq<char>,
    notes: Option<Seq<char>>,
) -> bool {
    &&& v.name@ == trim_spec(name)
    &&& Some(v.flow_type) == flow_type_from_text(lowercase_text(flow_type))
    &&& v.category_id.bytes@ == object_id_bytes(category_id)
    &&& v.account_expected_id.bytes@ == object_id_bytes(account_expected_id)
    &&& opt_id_field_spec(contact_id, ""@) == Ok::<Option<Seq<u8>>, Seq<char>>(opt_id_view(v.contact_id))
    &&& ref_id_spec(project_id) == Ok::<Option<Seq<u8>>, RequestError>(opt_id_view(v.project_id))
    &&& opt_id_field_spec(recurring_plan_id, ""@) == Ok::<Option<Seq<u8>>, Seq<char>>(opt_id_view(v.recurring_plan_id))
    &&& v.recurring_plan_version == recurring_plan_version
    &&& datetime_field_spec(due_date, ""@) == Ok::<i64, Seq<char>>(v.due_date)
    &&& Some(v.status) == planned_status_from_text(status)
    &&& opt_view(v.notes) == clean_opt_spec(notes)
}

/// Checks the admin form of a planned entry, for creating and for editing.
pub fn parse_planned_entry_form(form: &PlannedEntryFormData, amount_is_number: bool) -> (r: Result<PlannedEntryFields, RequestError>)
    ensures
        r is Ok <==> planned_form_accepted(*form, amount_is_number),
        r is Err ==> r == Err::<PlannedEntryFields, RequestError>(RequestError::BadRequest),
        r matches Ok(v) ==> {
            &&& opt_i32_field_spec(opt_view(form.recurring_plan_version), "Versión del plan"@)
                == Ok::<Option<i32>, Seq<char>>(v.recurring_plan_version)
            &&& planned_fields_match(v, form.name@, form.flow_type@, form.category_id@,
                form.account_expected_id@, opt_view(form.contact_id), opt_view(form.project_id),
                opt_view(form.recurring_plan_id), v.recurring_plan_version, form.due_date@,
                form.status@, opt_view(form.notes))
        },
{
    let flow_type = match parse_flow_type(form.flow_type.as_str()) {
        Ok(f) => f,
        Err(_) => return Err(RequestError::BadRequest),
    };
    let category_id = match parse_object_id(form.category_id.as_str(), "Categoría") {
        Ok(id) => id,
        Err(_) => return Err(RequestError::BadRequest),
    };
    let account_expected_id = match parse_object_id(form.account_expected_id.as_str(), "Cuenta esperada") {
        Ok(id) => id,
        Err(_) => return Err(RequestError::BadRequest),
    };
    let contact_id = match parse_optional_id_field(form.contact_id.clone(), "Contacto") {
        Ok(c) => c,
        Err(_) => return Err(RequestError::BadRequest),
    };
    let recurring_plan_id = match parse_optional_id_field(form.recurring_plan_id.clone(), "Plan recurrente") {
        Ok(c) => c,
        Err(_) => return Err(RequestError::BadRequest),
    };
    let recurring_plan_version = match parse_optional_i32_field(form.recurring_plan_version.clone(), "Versión del plan") {
        Ok(v) => v,
        Err(_) => return Err(RequestError::BadRequest),
    };
    if !amount_is_number {
        return Err(RequestError::BadRequest);
    }
    let due_date = match parse_datetime_field(form.due_date.as_str(), "Fecha de vencimiento") {
        Ok(d) => d,
        Err(_) => return Err(RequestError::BadRequest),
    };
    let status = match parse_planned_status(form.status.as_str()) {
        Ok(s) => s,
        Err(_) => return Err(RequestError::BadRequest),
    };
    let project_id = parse_ref_id(form.project_id.clone())?;
    Ok(PlannedEntryFields {
        name: String::from_str(trim(form.name.as_str())),
        flow_type,
        category_id,
        account_expected_id,
        contact_id,
        project_id,
        recurring_plan_id,
        recurring_plan_version,
        due_date,
        status,
        notes: clean_opt(form.notes.clone()),
    })
}

/// When the JSON endpoints accept a planned entry (every refusal is a bad
/// request). `amount_negative` tells whether the amount is below zero.
pub open spec fn planned_payload_accepted(p: PlannedEntryPayload, amount_negative: bool) -> bool {
    &&& trim_spec(p.name@).len() > 0
    &&& !amount_negative
    &&& flow_type_from_text(lowercase_text(p.flow_type@)) is Some
    &&& is_object_id_text(p.category_id@)
    &&& is_object_id_text(p.account_expected_id@)
    &&& opt_id_field_spec(opt_view(p.contact_id), ""@) is Ok
    &&& ref_id_spec(opt_view(p.project_id)) is Ok
    &&& datetime_field_spec(p.due_date@, ""@) is Ok
    &&& planned_status_from_text(p.status@) is Some
    &&& opt_id_field_spec(opt_view(p.recurring_plan_id), ""@) is Ok
}

/// Checks a planned entry received as JSON.
pub fn parse_planned_entry_payload(payload: PlannedEntryPayload, amount_negative: bool) -> (r: Result<PlannedEntryFields, RequestError>)
    ensures
        r is Ok <==> planned_payload_accepted(payload, amount_negative),
        r is Err ==> r == Err::<PlannedEntryFields, RequestError>(RequestError::BadRequest),
        r matches Ok(v) ==> planned_fields_match(v, payload.name@, payload.flow_type@,
            payload.category_id@, payload.account_expected_id@, opt_view(payload.contact_id),
            opt_view(payload.project_id), opt_view(payload.recurring_plan_id),
            payload.recurring_plan_version, payload.due_date@, payload.status@,
            opt_view(payload.notes)),
{
    let name = String::from_str(trim(payload.name.as_str()));
    if name.unicode_len() == 0 || amount_negative {
        return Err(RequestError::BadRequest);
    }
    let flow_type = match parse_flow_type(payload.flow_type.as_str()) {
        Ok(f) => f,
        Err(_) => return Err(RequestError::BadRequest),
    };
    let category_id = match parse_object_id(payload.category_id.as_str(), "category_id") {
        Ok(id) => id,
        Err(_) => return Err(RequestError::BadRequest),
    };
    let account_expected_id = match parse_object_id(payload.account_expected_id.as_str(), "account_expected_id") {
        Ok(id) => id,
        Err(_) => return Err(RequestError::BadRequest),
    };
    let contact_id = parse_ref_id(payload.contact_id.clone())?;
    let project_id = parse_ref_id(payload.project_id.clone())?;
    let due_date = match parse_datetime_field(payload.due_date.as_str(), "due_date") {
        Ok(d) => d,
        Err(_) => return Err(RequestError::BadRequest),
    };
    let status = match parse_planned_status(payload.status.as_str()) {
        Ok(s) => s,
        Err(_) => return Err(RequestError::BadRequest),
    };
    let recurring_plan_id = parse_ref_id(payload.recurring_plan_id.clone())?;
    Ok(PlannedEntryFields {
        name,
        flow_type,
        category_id,
        account_expected_id,
        contact_id,
        project_id,
        recurring_plan_id,
        recurring_plan_version: payload.recurring_plan_version,
        due_date,
        status,
        notes: clean_opt(payload.notes),
    })
}

/// The query of the payment screen of one entry.
#[derive(Debug, Clone)]
pub struct PayQuery {
    pub return_to: Option<String>,
}

/// The query of the bulk payment screen: comma-separated entry identifiers.
#[derive(Debug, Clone)]
pub struct BulkPayQuery {
    pub ids: String,
    pub return_to: Option<String>,
}

/// The payment form of one entry.
#[derive(Debug, Clone)]
pub struct PayFormData {
    pub paid_at: String,
    pub amount: String,
    pub account_id: String,
    pub project_id: Option<String>,
    pub parent_planned_entry_id: Option<String>,
    pub notes: Option<String>,
    pub return_to: Option<String>,
}

/// The bulk payment form.
#[derive(Debug, Clone)]
pub struct BulkPayFormData {
    pub entry_ids: String,
    pub paid_at: String,
    pub account_id: String,
    pub project_id: Option<String>,
    pub parent_planned_entry_id: Option<String>,
    pub notes: Option<String>,
    pub return_to: Option<String>,
}

/// The payment of one entry as the JSON endpoint receives it. The amount is a
/// float and is not held here: its sign is passed to the parser.
#[derive(Debug, Clone)]
pub struct PlannedEntryPayPayload {
    pub paid_at: String,
    pub account_id: String,
    pub project_id: Option<String>,
    pub parent_planned_entry_id: Option<String>,
    pub notes: Option<String>,
}

/// The bulk payment as the JSON endpoint receives it.
#[derive(Debug, Clone)]
pub struct PlannedEntryBulkPayPayload {
    pub entry_ids: Vec<String>,
    pub paid_at: String,
    pub account_id: String,
    pub project_id: Option<String>,
    pub parent_planned_entry_id: Option<String>,
    pub notes: Option<String>,
}

/// What looking up an entry to be paid returned.
#[derive(Debug, Clone, Copy)]
pub enum EntryLookup {
    Found(ObjectId, PlannedStatus),
    Missing,
    Failed,
}

/// An entry to be paid must exist, belong to the active company, and be
/// neither covered nor cancelled.
pub fn check_payable_entry(lookup: &EntryLookup, active_company: &ObjectId) -> (r: Result<(), RequestError>)
    ensures
        match *lookup {
            EntryLookup::Found(owner, status) => if owner.bytes@ != active_company.bytes@ {
                r == Err::<(), RequestError>(RequestError::Forbidden)
            } else if status == PlannedStatus::Covered || status == PlannedStatus::Cancelled {
                r == Err::<(), RequestError>(RequestError::BadRequest)
            } else {
                r is Ok
            },
            EntryLookup::Missing => r == Err::<(), RequestError>(RequestError::NotFound),
            EntryLookup::Failed => r == Err::<(), RequestError>(RequestError::Internal),
        },
{
    match lookup {
        EntryLookup::Found(owner, status) => {
            if !owner.same_as(active_company) {
                Err(RequestError::Forbidden)
            } else if !is_payable(status) {
                Err(RequestError::BadRequest)
            } else {
                Ok(())
            }
        },
        EntryLookup::Missing => Err(RequestError::NotFound),
        EntryLookup::Failed => Err(RequestError::Internal),
    }
}

/// Whether one entry can be paid, as `check_payable_entry` answers.
pub open spec fn payable_spec(lookup: EntryLookup, active_company: ObjectId) -> Result<(), RequestError> {
    match lookup {
        EntryLookup::Found(owner, status) => if owner.bytes@ != active_company.bytes@ {
            Err(RequestError::Forbidden)
        } else if status == PlannedStatus::Covered || status == PlannedStatus::Cancelled {
            Err(RequestError::BadRequest)
        } else {
            Ok(())
        },
        EntryLookup::Missing => Err(RequestError::NotFound),
        EntryLookup::Failed => Err(RequestError::Internal),
    }
}

/// Whether the entries of a bulk payment can be paid: the first that cannot
/// refuses them all.
pub open spec fn all_payable_spec(lookups: Seq<EntryLookup>, active_company: ObjectId) -> Result<(), RequestError>
    decreases lookups.len(),
{
    if lookups.len() == 0 {
        Ok(())
    } else {
        match all_payable_spec(lookups.drop_last(), active_company) {
            Err(e) => Err(e),
            Ok(_) => payable_spec(lookups.last(), active_company),
        }
    }
}

/// Once the entries up to `k` are refused, so are the entries up to any later
/// position, for the same reason.
proof fn lemma_payable_refusal_stays(lookups: Seq<EntryLookup>, c: ObjectId, k: int, j: int)
    requires
        0 <= k <= j <= lookups.len(),
        all_payable_spec(lookups.take(k), c) is Err,
    ensures
        all_payable_spec(lookups.take(j), c) == all_payable_spec(lookups.take(k), c),
    decreases j - k,
{
    if j > k {
        lemma_payable_refusal_stays(lookups, c, k, j - 1);
        assert(lookups.take(j).drop_last() =~= lookups.take(j - 1));
    }
}

/// The entries accepted together are each payable.
proof fn lemma_all_payable_each(lookups: Seq<EntryLookup>, c: ObjectId)
    requires
        all_payable_spec(lookups, c) is Ok,
    ensures
        forall|i: int| 0 <= i < lookups.len() ==> #[trigger] payable_spec(lookups[i], c) is Ok,
    decreases lookups.len(),
{
    if lookups.len() > 0 {
        lemma_all_payable_each(lookups.drop_last(), c);
        assert forall|i: int| 0 <= i < lookups.len() implies #[trigger] payable_spec(lookups[i], c) is Ok by {
            if i < lookups.len() - 1 {
                assert(lookups.drop_last()[i] == lookups[i]);
            }
        }
    }
}

/// Checks every entry of a bulk payment before any is paid: the payment goes
/// ahead only when all of them can be paid, and the first that cannot decides
/// the refusal.
pub fn check_payable_entries(lookups: &Vec<EntryLookup>, active_company: &ObjectId) -> (r: Result<(), RequestError>)
    ensures
        r == all_payable_spec(lookups@, *active_company),
        r is Ok ==> forall|i: int| 0 <= i < lookups@.len() ==> #[trigger] payable_spec(lookups@[i], *active_company) is Ok,
{
    let mut i: usize = 0;
    assert(lookups@.take(0) =~= Seq::<EntryLookup>::empty());
    while i < lookups.len()
        invariant
            i <= lookups@.len(),
            all_payable_spec(lookups@.take(i as int), *active_company) is Ok,
        decreases lookups.len() - i,
    {
        assert(lookups@.take(i + 1).drop_last() =~= lookups@.take(i as int));
        assert(lookups@.take(i + 1).last() == lookups@[i as int]);
        match check_payable_entry(&lookups[i], active_company) {
            Ok(()) => {},
            Err(e) => {
                proof {
                    lemma_payable_refusal_stays(lookups@, *active_company, i + 1, lookups@.len() as int);
                    assert(lookups@.take(lookups@.len() as int) =~= lookups@);
                }
                return Err(e);
            },
        }
        i = i + 1;
    }
    assert(lookups@.take(lookups@.len() as int) =~= lookups@);
    proof {
        lemma_all_payable_each(lookups@, *active_company);
    }
    Ok(())
}

/// Where a payment's project or parent entry comes from: kept from the entry
/// being paid, or a new identifier that must still be looked up.
#[derive(Debug, Clone, Copy)]
pub enum RefChoice {
    Keep(Option<ObjectId>),
    Check(ObjectId),
}

/// A blank field keeps the entry's own reference; anything else must be an
/// identifier, which is then looked up. `None` when it is not one.
pub fn choose_ref(value: Option<String>, current: Option<ObjectId>) -> (r: Option<RefChoice>)
    ensures
        match clean_opt_spec(opt_view(value)) {
            None => r == Some(RefChoice::Keep(current)),
            Some(t) => if is_object_id_text(t) {
                r matches Some(RefChoice::Check(id)) && id.bytes@ == object_id_bytes(t)
            } else {
                r is None
            },
        },
{
    match clean_opt(value) {
        None => Some(RefChoice::Keep(current)),
        Some(t) => match ObjectId::parse_str(t.as_str()) {
            Some(id) => Some(RefChoice::Check(id)),
            None => None,
        },
    }
}

/// The first checks of the payment form of one entry: the account, then the amount.
pub fn parse_pay_form_account(form: &PayFormData, amount_is_number: bool) -> (r: Result<ObjectId, String>)
    ensures
        !is_object_id_text(form.account_id@) ==> (r matches Err(m) && m@ == "Selecciona una cuenta válida"@),
        is_object_id_text(form.account_id@) && !amount_is_number ==> (r matches Err(m) && m@ == "Captura un monto válido"@),
        is_object_id_text(form.account_id@) && amount_is_number ==> (r matches Ok(id) && id.bytes@ == object_id_bytes(form.account_id@)),
{
    let account_id = match ObjectId::parse_str(form.account_id.as_str()) {
        Some(id) => id,
        None => return Err(String::from_str("Selecciona una cuenta válida")),
    };
    if !amount_is_number {
        return Err(String::from_str("Captura un monto válido"));
    }
    Ok(account_id)
}

/// What is known of the entry chosen as a payment's parent.
#[derive(Debug, Clone, Copy)]
pub struct ParentEntry {
    pub id: Option<ObjectId>,
    pub company_id: ObjectId,
    pub project_id: Option<ObjectId>,
    pub has_cfdi: bool,
}

/// Whether two optional projects are both set and differ.
pub open spec fn projects_clash(a: Option<ObjectId>, b: Option<ObjectId>) -> bool {
    a is Some && b is Some && a->0.bytes@ != b->0.bytes@
}

fn clash(a: &Option<ObjectId>, b: &Option<ObjectId>) -> (r: bool)
    ensures
        r == projects_clash(*a, *b),
{
    match (a, b) {
        (Some(x), Some(y)) => !x.same_as(y),
        _ => false,
    }
}

/// The parent chosen on the payment form of one entry must belong to the
/// company, be another entry, and share the payment's project when both have one.
pub fn check_pay_form_parent(parent: &ParentEntry, active_company: &ObjectId, entry_id: &ObjectId, project_id: &Option<ObjectId>) -> (r: Result<(), String>)
    ensures
        parent.company_id.bytes@ != active_company.bytes@ || (parent.id matches Some(p) && p.bytes@ == entry_id.bytes@)
            ==> (r matches Err(m) && m@ == "Selecciona un compromiso estimado válido"@),
        !(parent.company_id.bytes@ != active_company.bytes@ || (parent.id matches Some(p) && p.bytes@ == entry_id.bytes@))
            && projects_clash(parent.project_id, *project_id)
            ==> (r matches Err(m) && m@ == "El compromiso estimado debe pertenecer al proyecto seleccionado"@),
        !(parent.company_id.bytes@ != active_company.bytes@ || (parent.id matches Some(p) && p.bytes@ == entry_id.bytes@))
            && !projects_clash(parent.project_id, *project_id) ==> r is Ok,
{
    let same_entry = match &parent.id {
        Some(p) => p.same_as(entry_id),
        None => false,
    };
    if !parent.company_id.same_as(active_company) || same_entry {
        return Err(String::from_str("Selecciona un compromiso estimado válido"));
    }
    if clash(&parent.project_id, project_id) {
        return Err(String::from_str("El compromiso estimado debe pertenecer al proyecto seleccionado"));
    }
    Ok(())
}

/// The parent of a payment made through the JSON endpoints or in bulk must
/// belong to the company, carry no CFDI, share the payment's project when both
/// have one, and not be the entry being paid.
pub fn check_parent_entry(parent_id: &ObjectId, parent: &ParentEntry, active_company: &ObjectId, project_id: &Option<ObjectId>, paying: &Option<ObjectId>) -> (r: Result<(), RequestError>)
    ensures
        r is Ok <==> {
            &&& parent.company_id.bytes@ == active_company.bytes@
            &&& !parent.has_cfdi
            &&& !projects_clash(parent.project_id, *project_id)
            &&& !(paying matches Some(e) && e.bytes@ == parent_id.bytes@)
        },
        r is Err ==> r == Err::<(), RequestError>(RequestError::BadRequest),
{
    if !parent.company_id.same_as(active_company) || parent.has_cfdi {
        return Err(RequestError::BadRequest);
    }
    if clash(&parent.project_id, project_id) {
        return Err(RequestError::BadRequest);
    }
    if let Some(e) = paying {
        if e.same_as(parent_id) {
            return Err(RequestError::BadRequest);
        }
    }
    Ok(())
}

/// The first check of a payment received as JSON: a non-negative amount, then the account.
pub fn parse_payment_account(account_id: &str, amount_negative: bool) -> (r: Result<ObjectId, RequestError>)
    ensures
        r is Ok <==> !amount_negative && is_object_id_text(account_id@),
        r is Err ==> r == Err::<ObjectId, RequestError>(RequestError::BadRequest),
        r matches Ok(id) ==> id.bytes@ == object_id_bytes(account_id@),
{
    if amount_negative {
        return Err(RequestError::BadRequest);
    }
    match ObjectId::parse_str(account_id) {
        Some(id) => Ok(id),
        None => Err(RequestError::BadRequest),
    }
}

/// The payment date of a request received as JSON.
pub fn parse_paid_at(paid_at: &str) -> (r: Result<i64, RequestError>)
    ensures
        match datetime_field_spec(paid_at@, "paid_at"@) {
            Ok(ms) => r == Ok::<i64, RequestError>(ms),
            Err(_) => r == Err::<i64, RequestError>(RequestError::BadRequest),
        },
{
    match parse_datetime_field(paid_at, "paid_at") {
        Ok(ms) => Ok(ms),
        Err(_) => Err(RequestError::BadRequest),
    }
}

/// The identifiers of a bulk payment received as JSON, joined with commas.
pub open spec fn joined_ids(ids: Seq<String>) -> Seq<char>
    decreases ids.len(),
{
    if ids.len() == 0 {
        Seq::empty()
    } else if ids.len() == 1 {
        ids[0]@
    } else {
        joined_ids(ids.drop_last()) + ","@ + ids.last()@
    }
}

/// Joins the identifiers of a bulk payment with commas.
pub fn join_ids(ids: &Vec<String>) -> (r: String)
    ensures
        r@ == joined_ids(ids@),
{
    let mut out = String::new();
    let mut i: usize = 0;
    while i < ids.len()
        invariant
            i <= ids@.len(),
            out@ == joined_ids(ids@.subrange(0, i as int)),
        decreases ids.len() - i,
    {
        proof {
            let s = ids@.subrange(0, i as int + 1);
            assert(s.drop_last() =~= ids@.subrange(0, i as int));
        }
        if i > 0 {
            out.append(",");
        }
        out.append(ids[i].as_str());
        i = i + 1;
    }
    assert(ids@.subrange(0, ids@.len() as int) =~= ids@);
    out
}

} // verus!
