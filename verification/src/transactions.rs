//! Transactions: the admin form, the JSON payload, the listing query, and
//! what the listing and the detail endpoint show of a stored transaction.

use vstd::prelude::*;
use vstd::string::StrSliceExecFns;
use vstd::string::StringExecFns;
use crate::access::RequestError;
use crate::fields::{datetime_field_spec, opt_id_field_spec, opt_id_view, parse_datetime_field, parse_object_id, parse_optional_id_field};
use crate::forms::{parse_transaction_type, transaction_type_from_text};
use crate::fields::{datetime_text_of, datetime_to_string, opt_to_string};
use crate::ids::{ObjectId, hex_text, is_object_id_text, object_id_bytes};
use crate::lookup::NameLookup;
use crate::models::{TransactionType, transaction_type_text};
use crate::text::{clean_opt, clean_opt_spec, opt_view, trim, trim_spec};

verus! {

/// A transaction as the admin form submits it.
#[derive(Debug, Clone)]
pub struct TransactionFormData {
    pub company_id: String,
    pub date: String,
    pub description: String,
    pub transaction_type: String,
    pub category_id: String,
    pub account_from_id: Option<String>,
    pub account_to_id: Option<String>,
    pub amount: String,
    pub planned_entry_id: Option<String>,
    pub is_confirmed: bool,
    pub notes: Option<String>,
}

/// A transaction as the JSON endpoints receive it. The amount is a float and
/// is not held here: its sign is passed to the parser.
#[derive(Debug, Clone)]
pub struct TransactionPayload {
    pub date: String,
    pub description: String,
    pub transaction_type: String,
    pub category_id: String,
    pub account_from_id: Option<String>,
    pub account_to_id: Option<String>,
    pub planned_entry_id: Option<String>,
    pub is_confirmed: bool,
    pub notes: Option<String>,
}

/// A transaction read from JSON is confirmed unless it says otherwise.
pub fn default_confirmed() -> (b: bool)
    ensures
        b,
{
    true
}

/// The page asked of the transaction listing.
#[derive(Debug, Clone, Copy)]
pub struct TxPageQuery {
    pub page: usize,
}

/// The transaction listing opens on its first page.
pub fn default_tx_page() -> (p: usize)
    ensures
        p == 1,
{
    1
}

/// The checked fields of a transaction, before its references are looked up.
#[derive(Debug, Clone)]
pub struct TransactionFields {
    pub date: i64,
    pub description: String,
    pub transaction_type: TransactionType,
    pub category_id: ObjectId,
    pub account_from_id: Option<ObjectId>,
    pub account_to_id: Option<ObjectId>,
    pub planned_entry_id: Option<ObjectId>,
    pub is_confirmed: bool,
    pub notes: Option<String>,
}

/// The fields an accepted transaction carries, from the form or the payload.
pub open spec fn transaction_fields_match(
    v: TransactionFields,
    date: Seq<char>,
    description: Seq<char>,
    transaction_type: Seq<char>,
    category_id: Seq<char>,
    account_from_id: Option<Seq<char>>,
    account_to_id: Option<Seq<char>>,
    planned_entry_id: Option<Seq<char>>,
    is_confirmed: bool,
    notes: Option<Seq<char>>,
) -> bool {
    &&& datetime_field_spec(date, ""@) == Ok::<i64, Seq<char>>(v.date)
    &&& v.description@ == trim_spec(description)
    &&& Some(v.transaction_type) == transaction_type_from_text(transaction_type)
    &&& v.category_id.bytes@ == object_id_bytes(category_id)
    &&& opt_id_field_spec(account_from_id, ""@) == Ok::<Option<Seq<u8>>, Seq<char>>(opt_id_view(v.account_from_id))
    &&& opt_id_field_spec(account_to_id, ""@) == Ok::<Option<Seq<u8>>, Seq<char>>(opt_id_view(v.account_to_id))
    &&& opt_id_field_spec(planned_entry_id, ""@) == Ok::<Option<Seq<u8>>, Seq<char>>(opt_id_view(v.planned_entry_id))
    &&& v.is_confirmed == is_confirmed
    &&& opt_view(v.notes) == clean_opt_spec(notes)
}

/// When the admin form of a transaction is accepted (every refusal is a bad
/// request). `amount_is_number` tells whether the amount reads as a number.
pub open spec fn transaction_form_accepted(form: TransactionFormData, amount_is_number: bool) -> bool {
    &&& transaction_type_from_text(form.transaction_type@) is Some
    &&& is_object_id_text(form.category_id@)
    &&& opt_id_field_spec(opt_view(form.account_from_id), ""@) is Ok
    &&& opt_id_field_spec(opt_view(form.account_to_id), ""@) is Ok
    &&& opt_id_field_spec(opt_view(form.planned_entry_id), ""@) is Ok
    &&& amount_is_number
    &&& datetime_field_spec(form.date@, ""@) is Ok
}

fn bad_request<T>(r: Result<T, String>) -> (o: Result<T, RequestError>)
    ensures
        match r {
            Ok(v) => o == Ok::<T, RequestError>(v),
            Err(_) => o == Err::<T, RequestError>(RequestError::BadRequest),
        },
{
    match r {
        Ok(v) => Ok(v),
        Err(_) => Err(RequestError::BadRequest),
    }
}

/// Checks the admin form of a transaction, for creating and for editing.
pub fn parse_transaction_form(form: &TransactionFormData, amount_is_number: bool) -> (r: Result<TransactionFields, RequestError>)
    ensures
        r is Ok <==> transaction_form_accepted(*form, amount_is_number),
        r is Err ==> r == Err::<TransactionFields, RequestError>(RequestError::BadRequest),
        r matches Ok(v) ==> transaction_fields_match(v, form.date@, form.description@,
            form.transaction_type@, form.category_id@, opt_view(form.account_from_id),
            opt_view(form.account_to_id), opt_view(form.planned_entry_id), form.is_confirmed,
            opt_view(form.notes)),
{
    let transaction_type = bad_request(parse_transaction_type(form.transaction_type.as_str()))?;
    let category_id = bad_request(parse_object_id(form.category_id.as_str(), "Categoría"))?;
    let account_from_id = bad_request(parse_optional_id_field(form.account_from_id.clone(), "Cuenta origen"))?;
    let account_to_id = bad_request(parse_optional_id_field(form.account_to_id.clone(), "Cuenta destino"))?;
    let planned_entry_id = bad_request(parse_optional_id_field(form.planned_entry_id.clone(), "Compromiso planificado"))?;
    if !amount_is_number {
        return Err(RequestError::BadRequest);
    }
    let date = bad_request(parse_datetime_field(form.date.as_str(), "Fecha"))?;
    Ok(TransactionFields {
        date,
        description: String::from_str(trim(form.description.as_str())),
        transaction_type,
        category_id,
        account_from_id,
        account_to_id,
        planned_entry_id,
        is_confirmed: form.is_confirmed,
        notes: clean_opt(form.notes.clone()),
    })
}

/// When the JSON endpoints accept a transaction (every refusal is a bad
/// request). `amount_negative` tells whether the amount is below zero.
pub open spec fn transaction_payload_accepted(p: TransactionPayload, amount_negative: bool) -> bool {
    &&& transaction_type_from_text(p.transaction_type@) is Some
    &&& is_object_id_text(p.category_id@)
    &&& opt_id_field_spec(opt_view(p.account_from_id), ""@) is Ok
    &&& opt_id_field_spec(opt_view(p.account_to_id), ""@) is Ok
    &&& opt_id_field_spec(opt_view(p.planned_entry_id), ""@) is Ok
    &&& datetime_field_spec(p.date@, ""@) is Ok
    &&& trim_spec(p.description@).len() > 0
    &&& !amount_negative
}

/// Checks a transaction received as JSON.
pub fn parse_transaction_payload(payload: TransactionPayload, amount_negative: bool) -> (r: Result<TransactionFields, RequestError>)
    ensures
        r is Ok <==> transaction_payload_accepted(payload, amount_negative),
        r is Err ==> r == Err::<TransactionFields, RequestError>(RequestError::BadRequest),
        r matches Ok(v) ==> transaction_fields_match(v, payload.date@, payload.description@,
            payload.transaction_type@, payload.category_id@, opt_view(payload.account_from_id),
            opt_view(payload.account_to_id), opt_view(payload.planned_entry_id),
            payload.is_confirmed, opt_view(payload.notes)),
{
    let transaction_type = bad_request(parse_transaction_type(payload.transaction_type.as_str()))?;
    let category_id = bad_request(parse_object_id(payload.category_id.as_str(), "category_id"))?;
    let account_from_id = bad_request(parse_optional_id_field(payload.account_from_id.clone(), "id"))?;
    let account_to_id = bad_request(parse_optional_id_field(payload.account_to_id.clone(), "id"))?;
    let planned_entry_id = bad_request(parse_optional_id_field(payload.planned_entry_id.clone(), "id"))?;
    let date = bad_request(parse_datetime_field(payload.date.as_str(), "date"))?;
    let description = String::from_str(trim(payload.description.as_str()));
    if description.unicode_len() == 0 || amount_negative {
        return Err(RequestError::BadRequest);
    }
    Ok(TransactionFields {
        date,
        description,
        transaction_type,
        category_id,
        account_from_id,
        account_to_id,
        planned_entry_id,
        is_confirmed: payload.is_confirmed,
        notes: clean_opt(payload.notes),
    })
}

/// What the listings read of a stored transaction; its amount, a float, is
/// carried beside it.
#[derive(Debug, Clone)]
pub struct TransactionRecord {
    pub id: Option<ObjectId>,
    pub company_id: ObjectId,
    /// Milliseconds since the epoch.
    pub date: i64,
    pub description: String,
    pub transaction_type: TransactionType,
    pub category_id: ObjectId,
    pub account_from_id: Option<ObjectId>,
    pub account_to_id: Option<ObjectId>,
    pub planned_entry_id: Option<ObjectId>,
    pub project_id: Option<ObjectId>,
    pub is_confirmed: bool,
    pub contact_id: Option<ObjectId>,
    pub cfdi_uuid: Option<String>,
    pub currency: Option<String>,
    pub cfdi_folio: Option<String>,
    pub notes: Option<String>,
}

/// The UTC calendar day of an instant written `YYYY-MM-DD`, as the database
/// driver's conversion to chrono and chrono's formatting write it.
pub uninterp spec fn utc_day_text_of(millis: i64) -> Seq<char>;

/// Calls `bson::DateTime::to_chrono` on the instant and formats it with
/// `%Y-%m-%d`. The text is named.
#[verifier::external_body]
fn utc_day_text(millis: i64) -> (r: String)
    ensures
        r@ == utc_day_text_of(millis),
{
    bson::DateTime::from_millis(millis).to_chrono().format("%Y-%m-%d").to_string()
}

/// The name a lookup gives an optional identifier, blank when it gives none.
pub open spec fn name_of(names: Map<Seq<u8>, Seq<char>>, id: Option<ObjectId>) -> Seq<char> {
    match id {
        Some(k) => if names.contains_key(k.bytes@) { names[k.bytes@] } else { Seq::<char>::empty() },
        None => Seq::<char>::empty(),
    }
}

/// An optional text, blank when absent.
pub open spec fn text_or_blank(t: Option<String>) -> Seq<char> {
    match t {
        Some(s) => s@,
        None => Seq::<char>::empty(),
    }
}

/// One line of the transaction listing.
#[derive(Debug, Clone)]
pub struct TxListRow {
    pub id: String,
    pub date: String,
    pub description: String,
    pub tx_type: String,
    pub category: String,
    pub account_from: String,
    pub account_to: String,
    pub contact: String,
    pub is_confirmed: bool,
    pub cfdi_folio: String,
    pub currency: String,
    pub notes: String,
}

/// The listing line of a stored transaction: its identifier, its day, the
/// names of its category, accounts and contact (blank when unknown), its
/// currency ("MXN" when it has none) and its other texts (blank when absent).
pub open spec fn tx_row_matches(
    r: TxListRow,
    tx: TransactionRecord,
    accounts: Map<Seq<u8>, Seq<char>>,
    categories: Map<Seq<u8>, Seq<char>>,
    contacts: Map<Seq<u8>, Seq<char>>,
) -> bool {
    &&& tx.id matches Some(id) && r.id@ == hex_text(id.bytes@)
    &&& r.date@ == utc_day_text_of(tx.date)
    &&& r.description@ == tx.description@
    &&& r.tx_type@ == transaction_type_text(tx.transaction_type)
    &&& r.category@ == name_of(categories, Some(tx.category_id))
    &&& r.account_from@ == name_of(accounts, tx.account_from_id)
    &&& r.account_to@ == name_of(accounts, tx.account_to_id)
    &&& r.contact@ == name_of(contacts, tx.contact_id)
    &&& r.is_confirmed == tx.is_confirmed
    &&& r.cfdi_folio@ == text_or_blank(tx.cfdi_folio)
    &&& r.currency@ == match tx.currency {
        Some(c) => c@,
        None => "MXN"@,
    }
    &&& r.notes@ == text_or_blank(tx.notes)
}

fn text_or_default(t: &Option<String>, default: &str) -> (r: String)
    ensures
        r@ == match t {
            Some(s) => s@,
            None => default@,
        },
{
    match t {
        Some(s) => s.clone(),
        None => String::from_str(default),
    }
}

/// The listing line of a stored transaction; a transaction never saved
/// (without an identifier) has none.
pub fn tx_list_row(tx: &TransactionRecord, accounts: &NameLookup, categories: &NameLookup, contacts: &NameLookup) -> (r: Option<TxListRow>)
    ensures
        r is None <==> tx.id is None,
        r matches Some(row) ==> tx_row_matches(row, *tx, accounts.view(), categories.view(), contacts.view()),
{
    let id = match &tx.id {
        Some(i) => i.to_hex(),
        None => return None,
    };
    let blank = String::new();
    proof {
        assert(blank@ =~= Seq::<char>::empty());
    }
    Some(TxListRow {
        id,
        date: utc_day_text(tx.date),
        description: tx.description.clone(),
        tx_type: String::from_str(tx.transaction_type.as_str()),
        category: categories.name_or_empty(&Some(tx.category_id)),
        account_from: accounts.name_or_empty(&tx.account_from_id),
        account_to: accounts.name_or_empty(&tx.account_to_id),
        contact: contacts.name_or_empty(&tx.contact_id),
        is_confirmed: tx.is_confirmed,
        cfdi_folio: text_or_default(&tx.cfdi_folio, blank.as_str()),
        currency: text_or_default(&tx.currency, "MXN"),
        notes: text_or_default(&tx.notes, blank.as_str()),
    })
}

/// The stored transactions a listing shows: those with an identifier, in order.
pub open spec fn listed_transactions(txs: Seq<TransactionRecord>) -> Seq<TransactionRecord>
    decreases txs.len(),
{
    if txs.len() == 0 {
        Seq::empty()
    } else if txs.last().id is Some {
        listed_transactions(txs.drop_last()).push(txs.last())
    } else {
        listed_transactions(txs.drop_last())
    }
}

/// The transaction listing: one line per stored transaction with an
/// identifier, in the order given.
pub fn tx_list_rows(txs: &Vec<TransactionRecord>, accounts: &NameLookup, categories: &NameLookup, contacts: &NameLookup) -> (r: Vec<TxListRow>)
    ensures
        r@.len() == listed_transactions(txs@).len(),
        forall|i: int| 0 <= i < r@.len() ==> #[trigger] tx_row_matches(r@[i], listed_transactions(txs@)[i],
            accounts.view(), categories.view(), contacts.view()),
{
    let mut rows: Vec<TxListRow> = Vec::new();
    let mut i: usize = 0;
    while i < txs.len()
        invariant
            i <= txs@.len(),
            rows@.len() == listed_transactions(txs@.take(i as int)).len(),
            forall|j: int| 0 <= j < rows@.len() ==> #[trigger] tx_row_matches(rows@[j],
                listed_transactions(txs@.take(i as int))[j], accounts.view(), categories.view(), contacts.view()),
        decreases txs.len() - i,
    {
        assert(txs@.take(i + 1).drop_last() =~= txs@.take(i as int));
        assert(txs@.take(i + 1).last() == txs@[i as int]);
        match tx_list_row(&txs[i], accounts, categories, contacts) {
            Some(row) => {
                rows.push(row);
            },
            None => {},
        }
        i = i + 1;
    }
    assert(txs@.take(txs@.len() as int) =~= txs@);
    rows
}

/// What the detail endpoint shows of a stored transaction.
#[derive(Debug, Clone)]
pub struct TransactionData {
    pub id: String,
    pub company_id: String,
    pub company: String,
    pub date: String,
    pub description: String,
    pub transaction_type: String,
    pub category_id: String,
    pub account_from_id: Option<String>,
    pub account_to_id: Option<String>,
    pub planned_entry_id: Option<String>,
    pub project_id: Option<String>,
    pub is_confirmed: bool,
    pub contact_id: Option<String>,
    pub cfdi_uuid: Option<String>,
    pub currency: Option<String>,
    pub cfdi_folio: Option<String>,
    pub notes: Option<String>,
}

/// The hex text of an optional identifier.
pub open spec fn opt_hex(id: Option<ObjectId>) -> Option<Seq<char>> {
    match id {
        Some(k) => Some(hex_text(k.bytes@)),
        None => None,
    }
}

/// The detail of a stored transaction, under the name of its company: every
/// identifier as hex text, the date as the endpoints write instants, the
/// other fields as stored. A transaction never saved has none.
pub fn transaction_data(tx: &TransactionRecord, company: String) -> (r: Option<TransactionData>)
    ensures
        r is None <==> tx.id is None,
        r matches Some(d) ==> {
            &&& tx.id matches Some(id) && d.id@ == hex_text(id.bytes@)
            &&& d.company_id@ == hex_text(tx.company_id.bytes@)
            &&& d.company@ == company@
            &&& d.date@ == datetime_text_of(tx.date)
            &&& d.description@ == tx.description@
            &&& d.transaction_type@ == transaction_type_text(tx.transaction_type)
            &&& d.category_id@ == hex_text(tx.category_id.bytes@)
            &&& opt_view(d.account_from_id) == opt_hex(tx.account_from_id)
            &&& opt_view(d.account_to_id) == opt_hex(tx.account_to_id)
            &&& opt_view(d.planned_entry_id) == opt_hex(tx.planned_entry_id)
            &&& opt_view(d.project_id) == opt_hex(tx.project_id)
            &&& d.is_confirmed == tx.is_confirmed
            &&& opt_view(d.contact_id) == opt_hex(tx.contact_id)
            &&& opt_view(d.cfdi_uuid) == opt_view(tx.cfdi_uuid)
            &&& opt_view(d.currency) == opt_view(tx.currency)
            &&& opt_view(d.cfdi_folio) == opt_view(tx.cfdi_folio)
            &&& opt_view(d.notes) == opt_view(tx.notes)
        },
{
    let id = match &tx.id {
        Some(i) => i.to_hex(),
        None => return None,
    };
    Some(TransactionData {
        id,
        company_id: tx.company_id.to_hex(),
        company,
        date: datetime_to_string(tx.date),
        description: tx.description.clone(),
        transaction_type: String::from_str(tx.transaction_type.as_str()),
        category_id: tx.category_id.to_hex(),
        account_from_id: opt_to_string(&tx.account_from_id),
        account_to_id: opt_to_string(&tx.account_to_id),
        planned_entry_id: opt_to_string(&tx.planned_entry_id),
        project_id: opt_to_string(&tx.project_id),
        is_confirmed: tx.is_confirmed,
        contact_id: opt_to_string(&tx.contact_id),
        cfdi_uuid: tx.cfdi_uuid.clone(),
        currency: tx.currency.clone(),
        cfdi_folio: tx.cfdi_folio.clone(),
        notes: tx.notes.clone(),
    })
}

} // verus!
