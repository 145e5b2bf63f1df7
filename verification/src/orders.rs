//! Service orders: their status values, the admin form, and the lines of
//! the order listing.

use vstd::prelude::*;
use vstd::string::StrSliceExecFns;
use vstd::string::StringExecFns;
use crate::calendar::{CivilDate, valid_date};
use crate::cfdi_download::{chrono_parse_ymd, chrono_ymd_of, date_of_ymd};
use crate::ids::{ObjectId, hex_text, is_object_id_text, object_id_bytes};
use crate::lookup::NameLookup;
use crate::transactions::name_of;
use crate::models::{OrderStatus, order_status_label_text, order_status_text};
use crate::fields::opt_id_view;
use crate::text::{opt_view, same_text, trim, trim_spec};

verus! {

/// The status named by a form value; anything unknown is a pending order.
pub open spec fn order_status_from_text(s: Seq<char>) -> OrderStatus {
    if s == "confirmed"@ {
        OrderStatus::Confirmed
    } else if s == "in_progress"@ {
        OrderStatus::InProgress
    } else if s == "completed"@ {
        OrderStatus::Completed
    } else if s == "cancelled"@ {
        OrderStatus::Cancelled
    } else {
        OrderStatus::Pending
    }
}

/// Reads the status of the order form.
pub fn parse_status(s: &str) -> (r: OrderStatus)
    ensures
        r == order_status_from_text(s@),
{
    if same_text(s, "confirmed") {
        OrderStatus::Confirmed
    } else if same_text(s, "in_progress") {
        OrderStatus::InProgress
    } else if same_text(s, "completed") {
        OrderStatus::Completed
    } else if same_text(s, "cancelled") {
        OrderStatus::Cancelled
    } else {
        OrderStatus::Pending
    }
}

/// Reading back the stored text of any status gives that status.
pub proof fn lemma_order_status_roundtrip(v: OrderStatus)
    ensures
        order_status_from_text(order_status_text(v)) == v,
{
    reveal_strlit("pending");
    reveal_strlit("confirmed");
    reveal_strlit("in_progress");
    reveal_strlit("completed");
    reveal_strlit("cancelled");
    assert("pending"@[0] != "confirmed"@[0]);
    assert("pending"@[0] != "in_progress"@[0]);
    assert("pending"@[0] != "completed"@[0]);
    assert("pending"@[0] != "cancelled"@[0]);
    assert("in_progress"@[0] != "confirmed"@[0]);
    assert("in_progress"@[0] != "completed"@[0]);
    assert("in_progress"@[0] != "cancelled"@[0]);
    assert("confirmed"@[2] != "completed"@[2]);
    assert("confirmed"@[1] != "cancelled"@[1]);
    assert("completed"@[1] != "cancelled"@[1]);
}

/// A status form value with its label.
pub open spec fn status_pair(v: OrderStatus) -> (Seq<char>, Seq<char>) {
    (order_status_text(v), order_status_label_text(v))
}

/// Different statuses carry different labels, so the label of a status
/// names it.
pub proof fn lemma_order_labels_distinct(a: OrderStatus, b: OrderStatus)
    ensures
        a != b ==> order_status_label_text(a) != order_status_label_text(b),
{
    reveal_strlit("Pendiente");
    reveal_strlit("Confirmada");
    reveal_strlit("En proceso");
    reveal_strlit("Completada");
    reveal_strlit("Cancelada");
    assert("Pendiente"@.len() == 9 && "Cancelada"@.len() == 9);
    assert("Confirmada"@.len() == 10 && "En proceso"@.len() == 10 && "Completada"@.len() == 10);
    assert("Pendiente"@[0] != "Cancelada"@[0]);
    assert("Confirmada"@[0] != "En proceso"@[0] && "Completada"@[0] != "En proceso"@[0]);
    assert("Confirmada"@[2] != "Completada"@[2]);
}

/// The status choices of the order form, in workflow order, each with its label.
pub fn status_options() -> (r: Vec<(String, String)>)
    ensures
        r@.len() == 5,
        (r@[0].0@, r@[0].1@) == status_pair(OrderStatus::Pending),
        (r@[1].0@, r@[1].1@) == status_pair(OrderStatus::Confirmed),
        (r@[2].0@, r@[2].1@) == status_pair(OrderStatus::InProgress),
        (r@[3].0@, r@[3].1@) == status_pair(OrderStatus::Completed),
        (r@[4].0@, r@[4].1@) == status_pair(OrderStatus::Cancelled),
{
    let mut r: Vec<(String, String)> = Vec::new();
    r.push((String::from_str("pending"), String::from_str("Pendiente")));
    r.push((String::from_str("confirmed"), String::from_str("Confirmada")));
    r.push((String::from_str("in_progress"), String::from_str("En proceso")));
    r.push((String::from_str("completed"), String::from_str("Completada")));
    r.push((String::from_str("cancelled"), String::from_str("Cancelada")));
    r
}

/// An order read from a form without a status is pending.
pub fn default_pending() -> (s: String)
    ensures
        s@ == order_status_text(OrderStatus::Pending),
{
    String::from_str("pending")
}

/// Days from 1970-01-01 to a day of the proleptic Gregorian calendar
/// (negative before it), counted in 400-year eras of 146097 days.
pub open spec fn days_from_civil(year: int, month: int, day: int) -> int {
    let y = if month <= 2 { year - 1 } else { year };
    let era = y / 400;
    let yoe = y - era * 400;
    let mp = if month > 2 { month - 3 } else { month + 9 };
    let doy = (153 * mp + 2) / 5 + day - 1;
    let doe = yoe * 365 + yoe / 4 - yoe / 100 + doy;
    era * 146097 + doe - 719468
}

/// Milliseconds since the epoch of midnight UTC at the start of a day.
pub open spec fn utc_midnight_millis_of(year: i32, month: u32, day: u32) -> int {
    days_from_civil(year as int, month as int, day as int) * 86_400_000
}

/// Calls `chrono::NaiveDate::from_ymd_opt(..).and_hms_opt(0, 0, 0)`, places
/// it in UTC and reads `timestamp_millis()`: the day's days since the epoch
/// times 86,400,000. Both constructors return `None` only for a day or time
/// that does not exist, so a real day in chrono's range always yields one.
#[verifier::external_body]
fn chrono_midnight_millis(d: CivilDate) -> (r: Option<i64>)
    requires
        valid_date(d),
    ensures
        r is Some,
        r matches Some(ms) ==> ms == utc_midnight_millis_of(d.year, d.month, d.day),
{
    chrono::NaiveDate::from_ymd_opt(d.year, d.month, d.day).and_then(|n| n.and_hms_opt(0, 0, 0)).map(
        |n| chrono::DateTime::<chrono::Utc>::from_naive_utc_and_offset(n, chrono::Utc).timestamp_millis(),
    )
}

/// The scheduled day of an order: a `%Y-%m-%d` text (trimmed), at midnight
/// UTC. Blank or unreadable text schedules nothing.
pub open spec fn scheduled_at_spec(s: Seq<char>) -> Option<int> {
    if trim_spec(s).len() == 0 {
        None
    } else {
        match date_of_ymd(chrono_ymd_of(trim_spec(s))) {
            None => None,
            Some(d) => Some(utc_midnight_millis_of(d.year, d.month, d.day)),
        }
    }
}

/// An optional instant in milliseconds, taken as an integer.
pub open spec fn opt_millis(o: Option<i64>) -> Option<int> {
    match o {
        Some(x) => Some(x as int),
        None => None,
    }
}

/// Reads the scheduled day of the order form.
pub fn parse_scheduled_at(s: &str) -> (r: Option<i64>)
    ensures
        opt_millis(r) == scheduled_at_spec(s@),
{
    let t = trim(s);
    if t.unicode_len() == 0 {
        return None;
    }
    match chrono_parse_ymd(t) {
        None => None,
        Some(d) => chrono_midnight_millis(d),
    }
}

/// An order as the admin form submits it.
#[derive(Debug, Clone)]
pub struct OrderFormData {
    pub title: String,
    pub contact_id: Option<String>,
    pub status: String,
    pub amount: String,
    pub scheduled_at: Option<String>,
    pub notes: Option<String>,
    pub items_json: Option<String>,
}

/// What the order form yields besides its amount and items.
#[derive(Debug, Clone)]
pub struct OrderFields {
    pub title: String,
    pub contact_id: Option<ObjectId>,
    pub status: OrderStatus,
    pub scheduled_at: Option<i64>,
    pub notes: Option<String>,
}

/// The contact of the order form: an identifier given as is; anything else
/// (blank or not an identifier) is no contact.
pub open spec fn order_contact_spec(c: Option<Seq<char>>) -> Option<Seq<u8>> {
    match c {
        Some(v) => if v.len() > 0 && is_object_id_text(v) {
            Some(object_id_bytes(v))
        } else {
            None
        },
        None => None,
    }
}

/// The notes of the order form are kept as written unless blank.
pub open spec fn order_notes_spec(n: Option<Seq<char>>) -> Option<Seq<char>> {
    match n {
        Some(v) => if trim_spec(v).len() == 0 {
            None
        } else {
            Some(v)
        },
        None => None,
    }
}

/// Reads the order form. Nothing on it is refused: a wrong contact or day is
/// dropped and an unknown status is pending.
pub fn parse_order_form(form: &OrderFormData) -> (r: OrderFields)
    ensures
        r.title@ == trim_spec(form.title@),
        opt_id_view(r.contact_id) == order_contact_spec(opt_view(form.contact_id)),
        r.status == order_status_from_text(form.status@),
        form.scheduled_at is None ==> r.scheduled_at is None,
        form.scheduled_at matches Some(s) ==> opt_millis(r.scheduled_at) == scheduled_at_spec(s@),
        opt_view(r.notes) == order_notes_spec(opt_view(form.notes)),
{
    let contact_id = match &form.contact_id {
        Some(c) => if c.unicode_len() > 0 {
            ObjectId::parse_str(c.as_str())
        } else {
            None
        },
        None => None,
    };
    let scheduled_at = match &form.scheduled_at {
        Some(s) => parse_scheduled_at(s.as_str()),
        None => None,
    };
    let notes = match &form.notes {
        Some(n) => if trim(n.as_str()).unicode_len() == 0 {
            None
        } else {
            Some(n.clone())
        },
        None => None,
    };
    OrderFields {
        title: String::from_str(trim(form.title.as_str())),
        contact_id,
        status: parse_status(form.status.as_str()),
        scheduled_at,
        notes,
    }
}

/// The text chrono writes for the UTC instant `secs` seconds after the epoch
/// under the format `fmt`, or `None` when its calendar cannot hold the instant.
pub uninterp spec fn chrono_format_of(secs: i64, fmt: Seq<char>) -> Option<Seq<char>>;

/// Calls `chrono::DateTime::from_timestamp(secs, 0)` and formats the instant
/// with `fmt`, one of the two day formats of the order screens (a format
/// chrono cannot read would panic when written). The text is named.
#[verifier::external_body]
fn chrono_format_secs(secs: i64, fmt: &str) -> (r: Option<String>)
    requires
        fmt@ == "%d/%m/%Y"@ || fmt@ == "%Y-%m-%d"@,
    ensures
        match r {
            Some(t) => chrono_format_of(secs, fmt@) == Some(t@),
            None => chrono_format_of(secs, fmt@) is None,
        },
{
    match chrono::DateTime::from_timestamp(secs, 0) {
        Some(dt) => Some(dt.format(fmt).to_string()),
        None => None,
    }
}

/// The epoch written in one of the two day formats.
pub open spec fn epoch_day_text(day_first: bool) -> Seq<char> {
    if day_first { "01/01/1970"@ } else { "1970-01-01"@ }
}

/// The day format: `dd/mm/yyyy` when the day comes first, else `yyyy-mm-dd`.
pub open spec fn day_format(day_first: bool) -> Seq<char> {
    if day_first { "%d/%m/%Y"@ } else { "%Y-%m-%d"@ }
}

/// The day an order screen shows for a stored instant (milliseconds): its
/// whole seconds, truncated toward zero, as chrono writes them; an instant
/// chrono cannot hold shows as the epoch.
pub open spec fn order_day_text(ms: i64, day_first: bool) -> Seq<char> {
    let secs = if ms >= 0 { ms / 1000 } else { -((-ms) / 1000) };
    match chrono_format_of(secs as i64, day_format(day_first)) {
        Some(t) => t,
        None => epoch_day_text(day_first),
    }
}

/// The day an order screen shows for a stored instant: `dd/mm/yyyy` in the
/// listing, `yyyy-mm-dd` in the form.
pub fn order_day(ms: i64, day_first: bool) -> (r: String)
    ensures
        r@ == order_day_text(ms, day_first),
{
    let secs = ms / 1000;
    let fmt = if day_first { "%d/%m/%Y" } else { "%Y-%m-%d" };
    proof {
        reveal_strlit("%d/%m/%Y");
        reveal_strlit("%Y-%m-%d");
    }
    match chrono_format_secs(secs, fmt) {
        Some(t) => t,
        None => if day_first {
            String::from_str("01/01/1970")
        } else {
            String::from_str("1970-01-01")
        },
    }
}

/// What the order listing reads of a stored order; its amount, a float, is
/// carried beside it.
#[derive(Debug, Clone)]
pub struct OrderRecord {
    pub id: Option<ObjectId>,
    pub contact_id: Option<ObjectId>,
    pub title: String,
    pub status: OrderStatus,
    /// Milliseconds since the epoch.
    pub scheduled_at: Option<i64>,
    pub transaction_id: Option<ObjectId>,
}

/// One line of the order listing.
#[derive(Debug, Clone)]
pub struct OrderRow {
    pub id: String,
    pub title: String,
    pub contact_name: String,
    pub status: String,
    pub status_label: String,
    pub scheduled_at: String,
    pub has_transaction: bool,
}

/// The listing line of a stored order: its identifier (blank for one never
/// saved), title, the name of its contact (blank when unknown), status and
/// its label, the day it is scheduled (blank when it is not), and whether a
/// transaction records it.
pub open spec fn order_row_matches(r: OrderRow, o: OrderRecord, contacts: Map<Seq<u8>, Seq<char>>) -> bool {
    &&& r.id@ == match o.id {
        Some(i) => hex_text(i.bytes@),
        None => Seq::<char>::empty(),
    }
    &&& r.title@ == o.title@
    &&& r.contact_name@ == name_of(contacts, o.contact_id)
    &&& r.status@ == order_status_text(o.status)
    &&& r.status_label@ == order_status_label_text(o.status)
    &&& r.scheduled_at@ == match o.scheduled_at {
        Some(ms) => order_day_text(ms, true),
        None => Seq::<char>::empty(),
    }
    &&& r.has_transaction == o.transaction_id is Some
}

/// The listing line of a stored order.
pub fn order_row(o: &OrderRecord, contacts: &NameLookup) -> (r: OrderRow)
    ensures
        order_row_matches(r, *o, contacts.view()),
{
    OrderRow {
        id: match &o.id {
            Some(i) => i.to_hex(),
            None => String::new(),
        },
        title: o.title.clone(),
        contact_name: contacts.name_or_empty(&o.contact_id),
        status: String::from_str(o.status.as_str()),
        status_label: String::from_str(o.status.label()),
        scheduled_at: match o.scheduled_at {
            Some(ms) => order_day(ms, true),
            None => String::new(),
        },
        has_transaction: o.transaction_id.is_some(),
    }
}

/// The order listing: one line per stored order, in the order given.
pub fn order_rows(orders: &Vec<OrderRecord>, contacts: &NameLookup) -> (r: Vec<OrderRow>)
    ensures
        r@.len() == orders@.len(),
        forall|i: int| 0 <= i < r@.len() ==> #[trigger] order_row_matches(r@[i], orders@[i], contacts.view()),
{
    let mut out: Vec<OrderRow> = Vec::new();
    let mut i: usize = 0;
    while i < orders.len()
        invariant
            i <= orders@.len(),
            out@.len() == i,
            forall|j: int| 0 <= j < i ==> #[trigger] order_row_matches(out@[j], orders@[j], contacts.view()),
        decreases orders.len() - i,
    {
        out.push(order_row(&orders[i], contacts));
        i = i + 1;
    }
    out
}

} // verus!
