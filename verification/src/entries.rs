//! Planned entries (commitments): which ones a bulk payment covers, where a
//! payment form returns to, and which entries can still be paid.

use vstd::prelude::*;
use vstd::string::StrSliceExecFns;
use crate::ids::{ObjectId, is_object_id_text, object_id_bytes};
use crate::models::PlannedStatus;
use crate::text::{after_char, before_char, first_index_of, lemma_first_index_bounds, trim, trim_spec};

verus! {

/// The identifiers listed in a comma-separated text, read from the left:
/// blank items are skipped, an item that is not an identifier makes the
/// whole list invalid, and repeated identifiers are kept once, at their first
/// place.
pub open spec fn entry_ids_from(s: Seq<char>, acc: Seq<Seq<u8>>) -> Option<Seq<Seq<u8>>>
    decreases s.len(),
{
    let k = first_index_of(s, ',');
    proof {
        lemma_first_index_bounds(s, ',');
    }
    let piece = trim_spec(s.subrange(0, k));
    let next = if piece.len() == 0 {
        Some(acc)
    } else if !is_object_id_text(piece) {
        None
    } else if acc.contains(object_id_bytes(piece)) {
        Some(acc)
    } else {
        Some(acc.push(object_id_bytes(piece)))
    };
    match next {
        None => None,
        Some(a) => if k < s.len() {
            entry_ids_from(s.subrange(k + 1, s.len() as int), a)
        } else {
            Some(a)
        },
    }
}

/// The identifiers of a comma-separated list; a list without any is invalid.
pub open spec fn entry_ids_spec(s: Seq<char>) -> Option<Seq<Seq<u8>>> {
    match entry_ids_from(s, Seq::empty()) {
        Some(a) => if a.len() > 0 {
            Some(a)
        } else {
            None
        },
        None => None,
    }
}

pub open spec fn ids_view(ids: Seq<ObjectId>) -> Seq<Seq<u8>> {
    ids.map_values(|o: ObjectId| o.bytes@)
}

/// Reading a list never repeats an identifier.
proof fn lemma_entry_ids_distinct(s: Seq<char>, acc: Seq<Seq<u8>>)
    requires
        acc.no_duplicates(),
    ensures
        entry_ids_from(s, acc) matches Some(a) ==> a.no_duplicates() && acc.is_prefix_of(a),
    decreases s.len(),
{
    let k = first_index_of(s, ',');
    lemma_first_index_bounds(s, ',');
    let piece = trim_spec(s.subrange(0, k));
    if piece.len() > 0 && is_object_id_text(piece) && !acc.contains(object_id_bytes(piece)) {
        let a2 = acc.push(object_id_bytes(piece));
        assert(a2.no_duplicates()) by {
            assert forall|i: int, j: int| 0 <= i < a2.len() && 0 <= j < a2.len() && i != j implies a2[i] != a2[j] by {
                if i == acc.len() as int {
                    assert(a2[j] == acc[j]);
                } else if j == acc.len() as int {
                    assert(a2[i] == acc[i]);
                }
            }
        }
        if k < s.len() {
            lemma_entry_ids_distinct(s.subrange(k + 1, s.len() as int), a2);
        } else {
            assert(acc.is_prefix_of(a2));
        }
    } else if piece.len() == 0 || (is_object_id_text(piece) && acc.contains(object_id_bytes(piece))) {
        if k < s.len() {
            lemma_entry_ids_distinct(s.subrange(k + 1, s.len() as int), acc);
        } else {
            assert(acc.is_prefix_of(acc));
        }
    }
}

/// A list of identifiers lists each identifier once.
pub proof fn lemma_entry_ids_no_duplicates(s: Seq<char>)
    ensures
        entry_ids_spec(s) matches Some(a) ==> a.no_duplicates() && a.len() > 0,
{
    lemma_entry_ids_distinct(s, Seq::empty());
}

fn contains_id(ids: &Vec<ObjectId>, id: &ObjectId) -> (r: bool)
    ensures
        r == ids_view(ids@).contains(id.bytes@),
{
    let mut i: usize = 0;
    while i < ids.len()
        invariant
            i <= ids@.len(),
            forall|j: int| 0 <= j < i ==> ids@[j].bytes@ != id.bytes@,
        decreases ids.len() - i,
    {
        if ids[i].same_as(id) {
            assert(ids_view(ids@)[i as int] == id.bytes@);
            return true;
        }
        i = i + 1;
    }
    assert(!ids_view(ids@).contains(id.bytes@)) by {
        if ids_view(ids@).contains(id.bytes@) {
            let j = choose|j: int| 0 <= j < ids_view(ids@).len() && ids_view(ids@)[j] == id.bytes@;
            assert(ids@[j].bytes@ != id.bytes@);
        }
    }
    false
}

/// Reads the comma-separated identifiers of a bulk payment.
pub fn parse_entry_ids(value: &str) -> (r: Result<Vec<ObjectId>, ()>)
    ensures
        match entry_ids_spec(value@) {
            Some(a) => r matches Ok(ids) && ids_view(ids@) == a,
            None => r is Err,
        },
{
    let mut ids: Vec<ObjectId> = Vec::new();
    let mut rest: &str = value;
    assert(ids_view(ids@) =~= Seq::<Seq<u8>>::empty());
    loop
        invariant_except_break
            entry_ids_from(value@, Seq::empty()) == entry_ids_from(rest@, ids_view(ids@)),
        ensures
            entry_ids_from(value@, Seq::empty()) == Some(ids_view(ids@)),
        decreases rest@.len(),
    {
        proof {
            lemma_first_index_bounds(rest@, ',');
        }
        let ghost k = first_index_of(rest@, ',');
        let raw = before_char(rest, ',');
        let trimmed = trim(raw);
        let ghost before = ids_view(ids@);
        if trimmed.unicode_len() > 0 {
            match ObjectId::parse_str(trimmed) {
                None => {
                    assert(entry_ids_from(rest@, before) is None);
                    return Err(());
                },
                Some(id) => {
                    if !contains_id(&ids, &id) {
                        ids.push(id);
                        assert(ids_view(ids@) =~= before.push(id.bytes@));
                    }
                },
            }
        }
        match after_char(rest, ',') {
            Some(tail) => {
                assert(entry_ids_from(rest@, before) == entry_ids_from(tail@, ids_view(ids@)));
                rest = tail;
            },
            None => {
                assert(entry_ids_from(rest@, before) == Some(ids_view(ids@)));
                break;
            },
        }
    }
    if ids.len() == 0 {
        return Err(());
    }
    Ok(ids)
}

/// Where a payment form may send the user back: only known pages.
pub fn safe_return_to<'a>(value: Option<&'a str>) -> (r: Option<&'a str>)
    ensures
        r is Some <==> (value matches Some(v) && (v@ == "/tiempo"@ || v@ == "/admin/planned_entries"@)),
        r matches Some(t) ==> value matches Some(v) && t@ == v@,
{
    match value {
        Some(v) => {
            if crate::text::same_text(v, "/tiempo") || crate::text::same_text(v, "/admin/planned_entries") {
                Some(v)
            } else {
                None
            }
        },
        None => None,
    }
}

/// A planned entry can be paid unless it is already covered or cancelled.
pub fn is_payable(status: &PlannedStatus) -> (b: bool)
    ensures
        b <==> !(*status == PlannedStatus::Covered || *status == PlannedStatus::Cancelled),
{
    match status {
        PlannedStatus::Covered | PlannedStatus::Cancelled => false,
        _ => true,
    }
}

} // verus!
