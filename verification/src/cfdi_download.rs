//! Planning of SAT CFDI downloads: the requested range is cut into one job
//! per calendar month, never reaching past "now" in Mexico City time.

use vstd::prelude::*;
use vstd::string::StringExecFns;
use vstd::string::StrSliceExecFns;
use vstd::utf8::{decode_utf8, encode_utf8_decode_utf8};
use vstd::string::StringSliceAdditionalSpecFns;
use chrono::{Datelike, Timelike};
use crate::calendar::{CivilDate, days_in_month, CivilDateTime, valid_date, valid_date_time, date_le, date_le_exec, month_index, first_of_month, last_of_month, next_month_year, next_month_month, day_after, date_min, date_text, hms_text, year_in_range, month_days, next_month_start, push_date_text, push_hms_text};
use crate::numbers::{int_text, push_int};

verus! {

/// One month of a download range: the month it belongs to and the first and
/// last day it covers.
#[derive(Debug, Clone, Copy, PartialEq, Eq, Structural)]
pub struct DateChunk {
    pub year: i32,
    pub month: u32,
    pub from: CivilDate,
    pub to: CivilDate,
}

/// The chunks from the cursor month `(y, m)` to the end of the range.
pub open spec fn chunk_plan(y: int, m: int, start: CivilDate, end: CivilDate) -> Seq<DateChunk>
    decreases month_index(end.year as int, end.month as int) - month_index(y, m),
{
    let from = if y == start.year && m == start.month {
        start
    } else {
        first_of_month(y, m)
    };
    let last = last_of_month(y, m);
    let to = date_min(last, end);
    let chunk = DateChunk { year: y as i32, month: m as u32, from, to };
    if date_le(end, last) || month_index(y, m) >= month_index(end.year as int, end.month as int) {
        seq![chunk]
    } else {
        seq![chunk] + chunk_plan(next_month_year(y, m), next_month_month(m), start, end)
    }
}

/// The chunks of the days from `start` to `end`; none when `start` is after `end`.
pub open spec fn plan_spec(start: CivilDate, end: CivilDate) -> Seq<DateChunk> {
    if date_le(start, end) {
        chunk_plan(start.year as int, start.month as int, start, end)
    } else {
        Seq::empty()
    }
}

proof fn lemma_last_before_end_means_earlier_month(y: int, m: int, end: CivilDate)
    requires
        1 <= m <= 12,
        valid_date(end),
        !date_le(end, last_of_month(y, m)),
        year_in_range(y),
    ensures
        month_index(y, m) < month_index(end.year as int, end.month as int),
{
}

/// Cuts the days from `start` to `end` into one chunk per calendar month.
pub fn plan_month_chunks(start: CivilDate, end: CivilDate) -> (r: Vec<DateChunk>)
    requires
        valid_date(start),
        valid_date(end),
    ensures
        r@ == plan_spec(start, end),
{
    let mut chunks: Vec<DateChunk> = Vec::new();
    if !date_le_exec(&start, &end) {
        return chunks;
    }
    let mut cursor = CivilDate { year: start.year, month: start.month, day: 1 };
    loop
        invariant_except_break
            chunks@ + chunk_plan(cursor.year as int, cursor.month as int, start, end) == chunk_plan(
                start.year as int,
                start.month as int,
                start,
                end,
            ),
        invariant
            valid_date(start),
            valid_date(end),
            date_le(start, end),
            valid_date(cursor),
            cursor.day == 1,
            month_index(cursor.year as int, cursor.month as int) <= month_index(
                end.year as int,
                end.month as int,
            ),
        ensures
            chunks@ == chunk_plan(start.year as int, start.month as int, start, end),
        decreases month_index(end.year as int, end.month as int) - month_index(
            cursor.year as int,
            cursor.month as int,
        ),
    {
        let chunk_from = if cursor.year == start.year && cursor.month == start.month {
            start
        } else {
            cursor
        };
        let month_last = CivilDate {
            year: cursor.year,
            month: cursor.month,
            day: month_days(cursor.year, cursor.month),
        };
        let chunk_to = if date_le_exec(&month_last, &end) {
            month_last
        } else {
            end
        };
        let chunk = DateChunk { year: cursor.year, month: cursor.month, from: chunk_from, to: chunk_to };
        let ghost before = chunks@;
        chunks.push(chunk);
        if date_le_exec(&end, &month_last) {
            assert(chunks@ =~= chunk_plan(start.year as int, start.month as int, start, end));
            break;
        }
        proof {
            lemma_last_before_end_means_earlier_month(cursor.year as int, cursor.month as int, end);
        }
        let next = next_month_start(cursor);
        proof {
            assert(chunks@ + chunk_plan(next.year as int, next.month as int, start, end) =~= before
                + chunk_plan(cursor.year as int, cursor.month as int, start, end));
        }
        cursor = next;
    }
    chunks
}

/// Every chunk stays inside its month and inside the range, and each chunk
/// starts on the day after the previous one ends: the chunks cover the range
/// exactly, in order, without gaps or overlaps.
pub proof fn lemma_chunk_plan_covers(y: int, m: int, start: CivilDate, end: CivilDate)
    requires
        valid_date(start),
        valid_date(end),
        date_le(start, end),
        1 <= m <= 12,
        year_in_range(y),
        month_index(start.year as int, start.month as int) <= month_index(y, m),
        month_index(y, m) <= month_index(end.year as int, end.month as int),
    ensures
        ({
            let p = chunk_plan(y, m, start, end);
            &&& p.len() >= 1
            &&& p[0].year == y && p[0].month == m
            &&& p[0].from == (if y == start.year && m == start.month {
                start
            } else {
                first_of_month(y, m)
            })
            &&& p.last().to == end
            &&& forall|i: int|
                0 <= i < p.len() ==> {
                    &&& (#[trigger] p[i]).from.year == p[i].year && p[i].from.month == p[i].month
                    &&& p[i].to.year == p[i].year && p[i].to.month == p[i].month
                    &&& date_le(p[i].from, p[i].to)
                    &&& date_le(start, p[i].from)
                    &&& date_le(p[i].to, end)
                    &&& valid_date(p[i].from) && valid_date(p[i].to)
                }
            &&& forall|i: int| 0 <= i < p.len() - 1 ==> #[trigger] p[i + 1].from == day_after(p[i].to)
        }),
    decreases month_index(end.year as int, end.month as int) - month_index(y, m),
{
    let last = last_of_month(y, m);
    if date_le(end, last) || month_index(y, m) >= month_index(end.year as int, end.month as int) {
    } else {
        let ny = next_month_year(y, m);
        let nm = next_month_month(m);
        lemma_chunk_plan_covers(ny, nm, start, end);
        let p = chunk_plan(y, m, start, end);
        let q = chunk_plan(ny, nm, start, end);
        assert(p == seq![p[0]] + q);
        assert forall|i: int| 0 <= i < p.len() implies {
            &&& (#[trigger] p[i]).from.year == p[i].year && p[i].from.month == p[i].month
            &&& p[i].to.year == p[i].year && p[i].to.month == p[i].month
            &&& date_le(p[i].from, p[i].to)
            &&& date_le(start, p[i].from)
            &&& date_le(p[i].to, end)
            &&& valid_date(p[i].from) && valid_date(p[i].to)
        } by {
            if i > 0 {
                assert(p[i] == q[i - 1]);
            }
        }
        assert forall|i: int| 0 <= i < p.len() - 1 implies #[trigger] p[i + 1].from == day_after(
            p[i].to,
        ) by {
            if i > 0 {
                assert(p[i] == q[i - 1]);
                assert(p[i + 1] == q[i]);
                assert(q[(i - 1) + 1].from == day_after(q[i - 1].to));
            } else {
                assert(last.year as int == y);
                assert(last.month as int == m);
                assert(last.day as int == days_in_month(y, m));
                assert(day_after(last) == first_of_month(ny, nm));
                assert(month_index(ny, nm) == month_index(y, m) + 1);
                assert(p[1] == q[0]);
                assert(p[0].to == last);
                assert(q[0].from == first_of_month(ny, nm));
            }
        }
    }
}

/// Short Spanish month name used in chunk labels.
pub open spec fn month_name_text(month: int) -> Seq<char> {
    if month == 1 {
        "Ene"@
    } else if month == 2 {
        "Feb"@
    } else if month == 3 {
        "Mar"@
    } else if month == 4 {
        "Abr"@
    } else if month == 5 {
        "May"@
    } else if month == 6 {
        "Jun"@
    } else if month == 7 {
        "Jul"@
    } else if month == 8 {
        "Ago"@
    } else if month == 9 {
        "Sep"@
    } else if month == 10 {
        "Oct"@
    } else if month == 11 {
        "Nov"@
    } else if month == 12 {
        "Dic"@
    } else {
        "???"@
    }
}

pub fn month_name_es(month: u32) -> (s: &'static str)
    ensures
        s@ == month_name_text(month as int),
{
    match month {
        1 => "Ene",
        2 => "Feb",
        3 => "Mar",
        4 => "Abr",
        5 => "May",
        6 => "Jun",
        7 => "Jul",
        8 => "Ago",
        9 => "Sep",
        10 => "Oct",
        11 => "Nov",
        12 => "Dic",
        _ => "???",
    }
}

/// Label, first instant and last instant of one download job.
pub open spec fn chunk_texts(c: DateChunk, now: CivilDateTime) -> (Seq<char>, Seq<char>, Seq<char>) {
    (
        month_name_text(c.month as int) + " "@ + int_text(c.year as int),
        date_text(c.from) + "T00:00:00"@,
        if c.to == now.date {
            date_text(c.to) + "T"@ + hms_text(now)
        } else {
            date_text(c.to) + "T23:59:59"@
        },
    )
}

pub open spec fn triple_view(t: (String, String, String)) -> (Seq<char>, Seq<char>, Seq<char>) {
    (t.0@, t.1@, t.2@)
}

/// The download jobs for a parsed range, as of `now` (Mexico City time):
/// the range is cut at today and then per calendar month.
pub open spec fn jobs_for_dates(start: CivilDate, end: CivilDate, now: CivilDateTime) -> Seq<(Seq<char>, Seq<char>, Seq<char>)> {
    if !date_le(start, end) {
        Seq::empty()
    } else {
        let e = date_min(end, now.date);
        plan_spec(start, e).map_values(|c: DateChunk| chunk_texts(c, now))
    }
}

/// Renders the jobs for a parsed range.
pub fn jobs_for_range(start: CivilDate, end: CivilDate, now: CivilDateTime) -> (r: Vec<(String, String, String)>)
    requires
        valid_date(start),
        valid_date(end),
        valid_date_time(now),
    ensures
        r@.map_values(|t: (String, String, String)| triple_view(t)) == jobs_for_dates(start, end, now),
{
    let mut out: Vec<(String, String, String)> = Vec::new();
    if !date_le_exec(&start, &end) {
        assert(out@.map_values(|t: (String, String, String)| triple_view(t)) =~= Seq::empty());
        return out;
    }
    let e = if date_le_exec(&end, &now.date) {
        end
    } else {
        now.date
    };
    let plan = plan_month_chunks(start, e);
    let ghost spec_plan = plan_spec(start, e);
    proof {
        if date_le(start, e) {
            lemma_chunk_plan_covers(start.year as int, start.month as int, start, e);
        }
    }
    let mut i: usize = 0;
    while i < plan.len()
        invariant
            i <= plan@.len(),
            plan@ == spec_plan,
            valid_date_time(now),
            forall|k: int| 0 <= k < plan@.len() ==> valid_date((#[trigger] plan@[k]).from) && valid_date(plan@[k].to),
            out@.len() == i,
            forall|k: int| 0 <= k < i ==> triple_view(#[trigger] out@[k]) == chunk_texts(plan@[k], now),
        decreases plan@.len() - i,
    {
        let c = plan[i];
        let mut label = String::from_str(month_name_es(c.month));
        label.append(" ");
        push_int(&mut label, c.year as i64);
        let mut from = String::new();
        push_date_text(&mut from, &c.from);
        from.append("T00:00:00");
        let mut to = String::new();
        push_date_text(&mut to, &c.to);
        if c.to == now.date {
            to.append("T");
            push_hms_text(&mut to, &now);
        } else {
            to.append("T23:59:59");
        }
        out.push((label, from, to));
        i = i + 1;
    }
    assert(out@.map_values(|t: (String, String, String)| triple_view(t)) =~= jobs_for_dates(start, end, now));
    out
}

/// What the calendar library reads from a `%Y-%m-%d` text, as (year, month, day).
pub uninterp spec fn chrono_ymd_of(s: Seq<char>) -> Option<(i32, u32, u32)>;

/// The calendar date and time of day of a UNIX timestamp (UTC), as
/// (year, month, day, hour, minute, second).
pub uninterp spec fn utc_civil_of(secs: int) -> Option<(i32, u32, u32, u32, u32, u32)>;

pub open spec fn date_of_ymd(t: Option<(i32, u32, u32)>) -> Option<CivilDate> {
    match t {
        Some(v) => Some(CivilDate { year: v.0, month: v.1, day: v.2 }),
        None => None,
    }
}

pub open spec fn date_time_of(t: Option<(i32, u32, u32, u32, u32, u32)>) -> Option<CivilDateTime> {
    match t {
        Some(v) => Some(
            CivilDateTime {
                date: CivilDate { year: v.0, month: v.1, day: v.2 },
                hour: v.3,
                minute: v.4,
                second: v.5,
            },
        ),
        None => None,
    }
}

/// Calls `chrono::NaiveDate::parse_from_str(s, "%Y-%m-%d")`. What it accepts
/// is named, not spelled out; a date it returns is a real day between
/// `NaiveDate::MIN` and `NaiveDate::MAX`.
#[verifier::external_body]
pub(crate) fn chrono_parse_ymd(s: &str) -> (r: Option<CivilDate>)
    ensures
        r == date_of_ymd(chrono_ymd_of(s@)),
        r matches Some(d) ==> valid_date(d),
{
    chrono::NaiveDate::parse_from_str(s, "%Y-%m-%d").ok().map(
        |d| CivilDate { year: d.year(), month: d.month(), day: d.day() },
    )
}

/// The earliest and latest UNIX timestamps (UTC, whole seconds) of chrono's
/// calendar: 262144 BCE-01-01 00:00:00 and 262142-12-31 23:59:59.
pub open spec fn chrono_min_timestamp() -> int {
    -8_334_601_315_200
}

pub open spec fn chrono_max_timestamp() -> int {
    8_210_266_876_799
}

/// Calls `chrono::Utc::now().timestamp()`: the current UNIX time in seconds.
/// Which time it is, is the clock's; chrono's source returns from `now()`
/// only a reading at or after the epoch that its calendar holds (it panics
/// on any other clock), so the value lies in that range.
#[verifier::external_body]
pub(crate) fn utc_now_unix_seconds() -> (r: i64)
    ensures
        0 <= r <= chrono_max_timestamp(),
{
    chrono::Utc::now().timestamp()
}

/// Calls `chrono::DateTime::from_timestamp(secs, 0)` and reads its UTC date and
/// time of day. The result is named; when present it is a real day between
/// `NaiveDate::MIN` and `NaiveDate::MAX` and a time with whole seconds below
/// 60. The source builds it for every timestamp of its calendar's range.
#[verifier::external_body]
fn civil_from_unix_seconds(secs: i64) -> (r: Option<CivilDateTime>)
    ensures
        r == date_time_of(utc_civil_of(secs as int)),
        r matches Some(t) ==> valid_date_time(t),
        chrono_min_timestamp() <= secs <= chrono_max_timestamp() ==> r is Some,
{
    chrono::DateTime::from_timestamp(secs, 0).map(
        |dt| CivilDateTime {
            date: CivilDate { year: dt.year(), month: dt.month(), day: dt.day() },
            hour: dt.hour(),
            minute: dt.minute(),
            second: dt.second(),
        },
    )
}

/// Bytes of the range bound that are read as its date: at most the first ten.
pub open spec fn day_prefix_len(s: &str) -> int {
    if s.spec_bytes().len() < 10 {
        s.spec_bytes().len() as int
    } else {
        10
    }
}

/// The characters of the first `day_prefix_len` bytes.
pub open spec fn day_prefix(s: &str) -> Seq<char> {
    decode_utf8(s.spec_bytes().subrange(0, day_prefix_len(s)))
}

/// The download jobs for a requested range, as of `now` (Mexico City time).
/// A bound whose date cannot be read yields one job over the raw range.
pub open spec fn monthly_jobs_spec(start_iso: &str, end_iso: &str, now: CivilDateTime) -> Seq<(Seq<char>, Seq<char>, Seq<char>)> {
    let sp = date_of_ymd(chrono_ymd_of(day_prefix(start_iso)));
    let ep = date_of_ymd(chrono_ymd_of(day_prefix(end_iso)));
    if sp is None || ep is None {
        seq![("Descarga"@, start_iso@, end_iso@)]
    } else {
        jobs_for_dates(sp->0, ep->0, now)
    }
}

fn day_prefix_of(s: &str) -> (r: &str)
    requires
        vstd::utf8::is_char_boundary(s.spec_bytes(), day_prefix_len(s)),
    ensures
        r@ == day_prefix(s),
{
    let n = s.as_bytes().len();
    let k = if n < 10 {
        n
    } else {
        10
    };
    let (head, _rest) = s.split_at(k);
    proof {
        encode_utf8_decode_utf8(head@);
    }
    head
}

/// The download jobs for `start_iso..end_iso` as of `now`, the current Mexico
/// City date and time: one `(label, first instant, last instant)` per month.
pub fn monthly_chunks_at(start_iso: &str, end_iso: &str, now: CivilDateTime) -> (r: Vec<(String, String, String)>)
    requires
        valid_date_time(now),
        vstd::utf8::is_char_boundary(start_iso.spec_bytes(), day_prefix_len(start_iso)),
        vstd::utf8::is_char_boundary(end_iso.spec_bytes(), day_prefix_len(end_iso)),
    ensures
        r@.map_values(|t: (String, String, String)| triple_view(t)) == monthly_jobs_spec(start_iso, end_iso, now),
{
    let start = match chrono_parse_ymd(day_prefix_of(start_iso)) {
        Some(d) => d,
        None => {
            let mut v: Vec<(String, String, String)> = Vec::new();
            v.push((String::from_str("Descarga"), String::from_str(start_iso), String::from_str(end_iso)));
            assert(v@.map_values(|t: (String, String, String)| triple_view(t)) =~= monthly_jobs_spec(start_iso, end_iso, now));
            return v;
        },
    };
    let end = match chrono_parse_ymd(day_prefix_of(end_iso)) {
        Some(d) => d,
        None => {
            let mut v: Vec<(String, String, String)> = Vec::new();
            v.push((String::from_str("Descarga"), String::from_str(start_iso), String::from_str(end_iso)));
            assert(v@.map_values(|t: (String, String, String)| triple_view(t)) =~= monthly_jobs_spec(start_iso, end_iso, now));
            return v;
        },
    };
    jobs_for_range(start, end, now)
}

/// The Mexico City date and time the SAT is asked by, for a UTC reading
/// `utc` (seconds): six hours earlier, which is never in the SAT's future,
/// also during daylight time. `None` when that instant is outside chrono's
/// calendar (or before the earliest 64-bit second).
pub open spec fn mexico_city_now_spec(utc: i64) -> Option<CivilDateTime> {
    if utc - 21600 >= i64::MIN {
        date_time_of(utc_civil_of(utc - 21600))
    } else {
        None
    }
}

/// The Mexico City date and time for a UTC reading.
pub fn mexico_city_now(utc: i64) -> (r: Option<CivilDateTime>)
    ensures
        r == mexico_city_now_spec(utc),
        r matches Some(t) ==> valid_date_time(t),
        chrono_min_timestamp() + 21600 <= utc <= chrono_max_timestamp() ==> r is Some,
{
    match utc.checked_sub(21600) {
        Some(s) => civil_from_unix_seconds(s),
        None => None,
    }
}

/// The download jobs for `start_iso..end_iso` as of the current Mexico City
/// time (`mexico_city_now` of the clock's reading). Which reading that is,
/// is the clock's.
pub fn monthly_chunks(start_iso: &str, end_iso: &str) -> (r: Vec<(String, String, String)>)
    requires
        vstd::utf8::is_char_boundary(start_iso.spec_bytes(), day_prefix_len(start_iso)),
        vstd::utf8::is_char_boundary(end_iso.spec_bytes(), day_prefix_len(end_iso)),
    ensures
        exists|utc: i64| 0 <= utc <= chrono_max_timestamp()
            && (#[trigger] mexico_city_now_spec(utc) matches Some(now)
            && r@.map_values(|x: (String, String, String)| triple_view(x)) == monthly_jobs_spec(start_iso, end_iso, now)),
{
    let utc = utc_now_unix_seconds();
    match mexico_city_now(utc) {
        Some(now) => {
            let v = monthly_chunks_at(start_iso, end_iso, now);
            assert(mexico_city_now_spec(utc) matches Some(n) && n == now);
            v
        },
        None => {
            assert(false);
            Vec::new()
        },
    }
}

/// State of one background download job.
#[derive(Debug, Clone)]
pub enum CfdiJobStatus {
    Queued,
    Running,
    Done {
        imported: usize,
        transactions_created: usize,
        transactions_updated: usize,
        transactions_skipped: usize,
        errors: Vec<String>,
    },
    Failed { error: String },
}

/// A job is retried once when the download failed completely: it failed, or
/// it finished with nothing imported and at least one error.
pub fn should_retry(status: &CfdiJobStatus) -> (b: bool)
    ensures
        b == match status {
            CfdiJobStatus::Done { imported, errors, .. } => *imported == 0 && errors@.len() > 0,
            CfdiJobStatus::Failed { .. } => true,
            _ => false,
        },
{
    match status {
        CfdiJobStatus::Done { imported, errors, .. } => *imported == 0 && errors.len() > 0,
        CfdiJobStatus::Failed { .. } => true,
        CfdiJobStatus::Running | CfdiJobStatus::Queued => false,
    }
}

/// Which SAT downloads a job runs: a form value of "received" asks only for
/// received CFDIs, "both" for issued then received, anything else for issued.
#[derive(Debug, Clone, Copy, PartialEq, Eq, Structural)]
pub enum DownloadType {
    Issued,
    Received,
}

pub fn download_types_for(choice: &str) -> (r: Vec<DownloadType>)
    ensures
        choice@ == "received"@ ==> r@ == seq![DownloadType::Received],
        choice@ == "both"@ ==> r@ == seq![DownloadType::Issued, DownloadType::Received],
        choice@ != "received"@ && choice@ != "both"@ ==> r@ == seq![DownloadType::Issued],
{
    let mut r: Vec<DownloadType> = Vec::new();
    proof {
        reveal_strlit("received");
        reveal_strlit("both");
        assert("received"@.len() != "both"@.len());
    }
    if crate::text::same_text(choice, "received") {
        r.push(DownloadType::Received);
    } else if crate::text::same_text(choice, "both") {
        r.push(DownloadType::Issued);
        r.push(DownloadType::Received);
    } else {
        r.push(DownloadType::Issued);
    }
    r
}

/// Default download choice of the form: both directions.
pub fn default_both() -> (s: String)
    ensures
        s@ == "both"@,
{
    String::from_str("both")
}

} // verus!
