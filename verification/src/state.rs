//! The tables the engine reads and writes, and how a row is found in one.

use crate::model::{Customer, Driver, Equipment, Load};
use vstd::prelude::*;

verus! {

/// A row that is found by its identifier.
pub trait Record {
    /// The identifier of the row.
    spec fn key(&self) -> u128;

    fn record_id(&self) -> (r: u128)
        ensures
            r == self.key(),
    ;
}

impl Record for Load {
    open spec fn key(&self) -> u128 {
        self.id
    }

    fn record_id(&self) -> (r: u128) {
        self.id
    }
}

impl Record for Driver {
    open spec fn key(&self) -> u128 {
        self.id
    }

    fn record_id(&self) -> (r: u128) {
        self.id
    }
}

impl Record for Customer {
    open spec fn key(&self) -> u128 {
        self.id
    }

    fn record_id(&self) -> (r: u128) {
        self.id
    }
}

impl Record for Equipment {
    open spec fn key(&self) -> u128 {
        self.id
    }

    fn record_id(&self) -> (r: u128) {
        self.id
    }
}

/// Some row of the table has this identifier.
pub open spec fn contains_id<T: Record>(rows: Seq<T>, id: u128) -> bool {
    exists|i: int| 0 <= i < rows.len() && (#[trigger] rows[i]).key() == id
}

/// Row `i` is the first one with this identifier.
pub open spec fn first_at<T: Record>(rows: Seq<T>, id: u128, i: int) -> bool {
    &&& 0 <= i < rows.len()
    &&& rows[i].key() == id
    &&& forall|j: int| 0 <= j < i ==> (#[trigger] rows[j]).key() != id
}

/// Where the first row with this identifier stands, if there is one.
pub open spec fn position<T: Record>(rows: Seq<T>, id: u128) -> int {
    choose|i: int| first_at(rows, id, i)
}

/// No identifier occurs twice in the table.
pub open spec fn unique_ids<T: Record>(rows: Seq<T>) -> bool {
    forall|i: int, j: int|
        0 <= i < j < rows.len() ==> (#[trigger] rows[i]).key() != (#[trigger] rows[j]).key()
}

/// The first row with an identifier is the one `position` names.
pub proof fn lemma_position<T: Record>(rows: Seq<T>, id: u128, i: int)
    requires
        first_at(rows, id, i),
    ensures
        contains_id(rows, id),
        position(rows, id) == i,
{
    let p = position(rows, id);
    assert(first_at(rows, id, p));
    if p < i {
        assert(rows[p].key() != id);
    }
    if i < p {
        assert(rows[i].key() != id);
    }
}

/// Where a table holds an identifier, `position` names its first row.
pub proof fn lemma_position_exists<T: Record>(rows: Seq<T>, id: u128)
    requires
        contains_id(rows, id),
    ensures
        first_at(rows, id, position(rows, id)),
{
    let w = choose|i: int| 0 <= i < rows.len() && (#[trigger] rows[i]).key() == id;
    lemma_first_below(rows, id, w);
}

proof fn lemma_first_below<T: Record>(rows: Seq<T>, id: u128, w: int)
    requires
        0 <= w < rows.len(),
        rows[w].key() == id,
    ensures
        exists|i: int| first_at(rows, id, i),
    decreases w,
{
    if exists|j: int| 0 <= j < w && (#[trigger] rows[j]).key() == id {
        let j = choose|j: int| 0 <= j < w && (#[trigger] rows[j]).key() == id;
        lemma_first_below(rows, id, j);
    } else {
        assert(first_at(rows, id, w));
    }
}

/// Finds the first row with the given identifier.
pub fn find<T: Record>(rows: &Vec<T>, id: u128) -> (r: Option<usize>)
    ensures
        r is Some <==> contains_id(rows@, id),
        r matches Some(i) ==> first_at(rows@, id, i as int) && i == position(rows@, id),
{
    let mut i: usize = 0;
    while i < rows.len()
        invariant
            i <= rows.len(),
            forall|j: int| 0 <= j < i ==> (#[trigger] rows@[j]).key() != id,
        decreases rows.len() - i,
    {
        if rows[i].record_id() == id {
            proof {
                lemma_position(rows@, id, i as int);
            }
            return Some(i);
        }
        i += 1;
    }
    None
}

/// Tells whether no identifier occurs twice in the table.
pub fn all_unique<T: Record>(rows: &Vec<T>) -> (r: bool)
    ensures
        r == unique_ids(rows@),
{
    let mut j: usize = 0;
    while j < rows.len()
        invariant
            j <= rows.len(),
            forall|a: int, b: int|
                0 <= a < b < j ==> (#[trigger] rows@[a]).key() != (#[trigger] rows@[b]).key(),
        decreases rows.len() - j,
    {
        let mut i: usize = 0;
        while i < j
            invariant
                i <= j < rows.len(),
                forall|a: int| 0 <= a < i ==> (#[trigger] rows@[a]).key() != rows@[j as int].key(),
            decreases j - i,
        {
            if rows[i].record_id() == rows[j].record_id() {
                return false;
            }
            i += 1;
        }
        j += 1;
    }
    true
}

/// Replacing the first row of an identifier by a row of the same identifier
/// leaves it where it was: a lookup finds the new row in the old place.
pub proof fn lemma_update_keeps_position<T: Record>(rows: Seq<T>, id: u128, row: T)
    requires
        contains_id(rows, id),
        row.key() == id,
    ensures
        contains_id(rows.update(position(rows, id), row), id),
        position(rows.update(position(rows, id), row), id) == position(rows, id),
{
    let i = position(rows, id);
    let after = rows.update(i, row);
    lemma_position_exists(rows, id);
    assert(first_at(after, id, i)) by {
        assert forall|j: int| 0 <= j < i implies (#[trigger] after[j]).key() != id by {
            assert(after[j] == rows[j]);
        }
    }
    lemma_position(after, id, i);
}

/// Putting a row into a list adds it to what the list holds, wherever it
/// goes.
pub proof fn lemma_insert_to_multiset<T>(s: Seq<T>, k: int, x: T)
    requires
        0 <= k <= s.len(),
    ensures
        s.insert(k, x).to_multiset() == s.to_multiset().insert(x),
{
    let t = s.insert(k, x);
    assert(t.remove(k) =~= s);
    t.to_multiset_ensures();
    assert(t[k] == x);
    assert(t.to_multiset().count(x) > 0) by {
        assert(t.contains(x));
    }
    assert(t.to_multiset() =~= t.to_multiset().remove(x).insert(x));
}

/// Putting a row into a list shows in a selection from the list only where
/// the row is selected; it then comes last in the selection, provided that
/// nothing behind the place where it goes is selected.
pub proof fn lemma_filter_insert<T>(s: Seq<T>, k: int, x: T, pred: spec_fn(T) -> bool)
    requires
        0 <= k <= s.len(),
    ensures
        !pred(x) ==> s.insert(k, x).filter(pred) == s.filter(pred),
        pred(x) && (forall|j: int| k <= j < s.len() ==> !pred(#[trigger] s[j])) ==> s.insert(
            k,
            x,
        ).filter(pred) == s.filter(pred).push(x),
{
    let head = s.take(k);
    let tail = s.skip(k);
    assert(s =~= head + tail);
    assert(s.insert(k, x) =~= head.push(x) + tail);
    Seq::filter_distributes_over_add(head, tail, pred);
    Seq::filter_distributes_over_add(head.push(x), tail, pred);
    head.lemma_filter_push(x, pred);
    if pred(x) && (forall|j: int| k <= j < s.len() ==> !pred(#[trigger] s[j])) {
        let kept = tail.filter(pred);
        if kept.len() > 0 {
            assert(kept.contains(kept[0]));
            tail.lemma_filter_contains_rev(pred, kept[0]);
            let j = choose|j: int| 0 <= j < tail.len() && tail[j] == kept[0];
            assert(tail[j] == s[k + j]);
        }
        assert(kept =~= Seq::<T>::empty());
        assert(head.filter(pred).push(x) + kept =~= (head.filter(pred) + kept).push(x));
    }
}

/// Everything the engine knows: one table per kind of record.
#[derive(Debug)]
pub struct AppState {
    pub loads: Vec<Load>,
    pub drivers: Vec<Driver>,
    pub customers: Vec<Customer>,
    pub trucks: Vec<Equipment>,
    pub trailers: Vec<Equipment>,
}

/// Every load of the table keeps the invariant of a load.
pub open spec fn loads_wf(loads: Seq<Load>) -> bool {
    forall|i: int| 0 <= i < loads.len() ==> (#[trigger] loads[i]).wf()
}

impl AppState {
    /// Identifiers are unique within each table, and every load keeps its
    /// invariant.
    pub open spec fn wf(self) -> bool {
        &&& unique_ids(self.loads@)
        &&& unique_ids(self.drivers@)
        &&& unique_ids(self.customers@)
        &&& unique_ids(self.trucks@)
        &&& unique_ids(self.trailers@)
        &&& loads_wf(self.loads@)
    }

    /// A state with empty tables.
    pub fn new() -> (r: AppState)
        ensures
            r.wf(),
            r.loads@.len() == 0,
            r.drivers@.len() == 0,
            r.customers@.len() == 0,
            r.trucks@.len() == 0,
            r.trailers@.len() == 0,
    {
        AppState {
            loads: Vec::new(),
            drivers: Vec::new(),
            customers: Vec::new(),
            trucks: Vec::new(),
            trailers: Vec::new(),
        }
    }

    /// Tells whether the tables are well formed.
    pub fn is_valid(&self) -> (r: bool)
        ensures
            r == self.wf(),
    {
        if !(all_unique(&self.loads) && all_unique(&self.drivers) && all_unique(&self.customers)
            && all_unique(&self.trucks) && all_unique(&self.trailers)) {
            return false;
        }
        let mut i: usize = 0;
        while i < self.loads.len()
            invariant
                i <= self.loads.len(),
                forall|j: int| 0 <= j < i ==> (#[trigger] self.loads@[j]).wf(),
            decreases self.loads.len() - i,
        {
            if !self.loads[i].is_wf() {
                return false;
            }
            i += 1;
        }
        true
    }
}

} // verus!
