//! Name lookups keyed by record identifier, as the finance screens build them
//! to show the names of the categories, accounts and contacts a record points at.

use vstd::prelude::*;
use vstd::string::StrSliceExecFns;
use vstd::string::StringExecFns;
use crate::catalog::{is_selected, option_view, options_view};
use crate::forms::SimpleOption;
use crate::ids::{ObjectId, hex_text};

verus! {

/// Names by identifier. Entries are kept in the order they were added; for
/// an identifier added more than once the latest name counts.
#[derive(Debug, Clone)]
pub struct NameLookup {
    pub entries: Vec<(ObjectId, String)>,
}

/// The names by identifier that a list of (identifier, name) pairs defines,
/// later pairs replacing earlier ones.
pub open spec fn names_of(e: Seq<(ObjectId, String)>) -> Map<Seq<u8>, Seq<char>>
    decreases e.len(),
{
    if e.len() == 0 {
        Map::empty()
    } else {
        names_of(e.drop_last()).insert(e.last().0.bytes@, e.last().1@)
    }
}

/// The position of the latest pair for `k`.
pub open spec fn latest_index(e: Seq<(ObjectId, String)>, k: Seq<u8>) -> Option<int>
    decreases e.len(),
{
    if e.len() == 0 {
        None
    } else if e.last().0.bytes@ == k {
        Some(e.len() - 1)
    } else {
        latest_index(e.drop_last(), k)
    }
}

proof fn lemma_latest_index(e: Seq<(ObjectId, String)>, k: Seq<u8>)
    ensures
        names_of(e).contains_key(k) <==> latest_index(e, k) is Some,
        latest_index(e, k) matches Some(i) ==> 0 <= i < e.len() && e[i].0.bytes@ == k
            && names_of(e)[k] == e[i].1@,
    decreases e.len(),
{
    if e.len() > 0 {
        lemma_latest_index(e.drop_last(), k);
    }
}

impl NameLookup {
    pub open spec fn view(&self) -> Map<Seq<u8>, Seq<char>> {
        names_of(self.entries@)
    }

    /// An empty lookup.
    pub fn new() -> (m: NameLookup)
        ensures
            m.view() == Map::<Seq<u8>, Seq<char>>::empty(),
    {
        NameLookup { entries: Vec::new() }
    }

    /// Sets the name of `id`.
    pub fn insert(&mut self, id: ObjectId, name: String)
        ensures
            final(self).view() == old(self).view().insert(id.bytes@, name@),
    {
        let ghost before = self.entries@;
        self.entries.push((id, name));
        assert(self.entries@.drop_last() =~= before);
    }

    /// The name of `id`, if it has one.
    pub fn get(&self, id: &ObjectId) -> (r: Option<&String>)
        ensures
            self.view().contains_key(id.bytes@) ==> (r matches Some(s) && s@ == self.view()[id.bytes@]),
            !self.view().contains_key(id.bytes@) ==> r is None,
    {
        let ghost e = self.entries@;
        proof {
            lemma_latest_index(e, id.bytes@);
            assert(e.subrange(0, e.len() as int) =~= e);
        }
        let mut i: usize = self.entries.len();
        while i > 0
            invariant
                i <= e.len(),
                e == self.entries@,
                latest_index(e, id.bytes@) == latest_index(e.subrange(0, i as int), id.bytes@),
            decreases i,
        {
            let ghost sub = e.subrange(0, i as int);
            assert(sub.drop_last() =~= e.subrange(0, i as int - 1));
            if self.entries[i - 1].0.same_as(id) {
                proof {
                    lemma_latest_index(e, id.bytes@);
                }
                return Some(&self.entries[i - 1].1);
            }
            i = i - 1;
        }
        assert(e.subrange(0, 0) =~= Seq::<(ObjectId, String)>::empty());
        proof {
            lemma_latest_index(e, id.bytes@);
        }
        None
    }

    /// The name of `id`, or the empty text when it has none (or no `id`).
    pub fn name_or_empty(&self, id: &Option<ObjectId>) -> (r: String)
        ensures
            r@ == match id {
                Some(k) => if self.view().contains_key(k.bytes@) { self.view()[k.bytes@] } else { Seq::<char>::empty() },
                None => Seq::<char>::empty(),
            },
    {
        match id {
            Some(k) => match self.get(k) {
                Some(s) => s.clone(),
                None => String::new(),
            },
            None => String::new(),
        }
    }
}

/// Builds the lookup of a list of (identifier, name) pairs; a later pair for
/// the same identifier replaces an earlier one.
pub fn build_lookup_map(items: Vec<(ObjectId, String)>) -> (m: NameLookup)
    ensures
        m.view() == names_of(items@),
{
    NameLookup { entries: items }
}

/// Whether a pair with the key of entry `i` comes after it.
pub open spec fn replaced_later(e: Seq<(ObjectId, String)>, i: int) -> bool {
    exists|j: int| i < j < e.len() && #[trigger] e[j].0.bytes@ == e[i].0.bytes@
}

/// The options of the entries from position `i` on that are the latest for
/// their identifier, in entry order.
pub open spec fn select_from(e: Seq<(ObjectId, String)>, selected: Option<ObjectId>, i: int) -> Seq<(Seq<char>, Seq<char>, bool)>
    decreases e.len() - i,
{
    if i < 0 || i >= e.len() {
        Seq::empty()
    } else {
        let rest = select_from(e, selected, i + 1);
        if replaced_later(e, i) {
            rest
        } else {
            seq![(hex_text(e[i].0.bytes@), e[i].1@, is_selected(selected, e[i].0))] + rest
        }
    }
}

fn replaced_after(e: &Vec<(ObjectId, String)>, i: usize) -> (b: bool)
    requires
        i < e@.len(),
    ensures
        b == replaced_later(e@, i as int),
{
    let n = e.len();
    let mut j: usize = i + 1;
    while j < n
        invariant
            i < j <= e@.len(),
            n == e@.len(),
            forall|k: int| i < k < j ==> #[trigger] e@[k].0.bytes@ != e@[i as int].0.bytes@,
        decreases n - j,
    {
        if e[j].0.same_as(&e[i].0) {
            return true;
        }
        j = j + 1;
    }
    false
}

/// One option per identifier of the lookup, with its current name, marking
/// the selected identifier.
pub fn select_from_map(map: &NameLookup, selected: &Option<ObjectId>) -> (r: Vec<SimpleOption>)
    ensures
        options_view(r@) == select_from(map.entries@, *selected, 0),
{
    let ghost e = map.entries@;
    let mut out: Vec<SimpleOption> = Vec::new();
    let mut i: usize = 0;
    while i < map.entries.len()
        invariant
            i <= e.len(),
            e == map.entries@,
            options_view(out@) + select_from(e, *selected, i as int) == select_from(e, *selected, 0),
        decreases map.entries.len() - i,
    {
        if !replaced_after(&map.entries, i) {
            let (id, name) = (&map.entries[i].0, &map.entries[i].1);
            let sel = match selected {
                Some(s) => s.same_as(id),
                None => false,
            };
            let o = SimpleOption { value: id.to_hex(), label: name.clone(), selected: sel };
            let ghost before = out@;
            out.push(o);
            proof {
                assert(options_view(out@) =~= options_view(before).push(option_view(o)));
                assert(options_view(out@) + select_from(e, *selected, i as int + 1) =~= options_view(before)
                    + select_from(e, *selected, i as int));
            }
        }
        i = i + 1;
    }
    assert(options_view(out@) =~= options_view(out@) + select_from(e, *selected, i as int));
    out
}

/// Setting a name and reading it back gives that name; every other
/// identifier keeps the name it had.
pub proof fn lemma_latest_name_wins(e: Seq<(ObjectId, String)>, id: ObjectId, name: String, k: Seq<u8>)
    ensures
        names_of(e.push((id, name))).contains_key(id.bytes@),
        names_of(e.push((id, name)))[id.bytes@] == name@,
        k != id.bytes@ ==> (names_of(e.push((id, name))).contains_key(k) == names_of(e).contains_key(k)
            && names_of(e.push((id, name)))[k] == names_of(e)[k]),
{
    assert(e.push((id, name)).drop_last() =~= e);
}

} // verus!
