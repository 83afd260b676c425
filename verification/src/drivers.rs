//! The drivers of a company: registering one, looking one up, listing those
//! who can take a load, and recording where one is.

use crate::error::{not_found_text, ApiError};
use crate::model::{
    CreateDriverRequest, Driver, DriverStatus, EmploymentStatus, GeoPoint, Timestamp,
    UpdateDriverLocationRequest,
};
use crate::names::{
    bytes_equal, bytes_le, lemma_lex_antisymmetric, lemma_lex_reflexive, lemma_lex_total,
    lemma_lex_transitive, lex_le,
};
use crate::state::{
    contains_id, find, lemma_filter_insert, lemma_insert_to_multiset, position, AppState,
};
use vstd::prelude::*;
use vstd::string::StringExecFns;
use vstd::utf8::encode_utf8;

verus! {

/// Why a request to register a driver is turned down, if it is.
pub open spec fn driver_rejection(state: AppState, id: u128) -> Option<Seq<char>> {
    if contains_id(state.drivers@, id) {
        Some("a driver with this id already exists"@)
    } else {
        None
    }
}

/// The driver is the one that the request registers: employed, off duty,
/// with no history and no known position.
pub open spec fn is_new_driver(
    d: Driver,
    id: u128,
    now: Timestamp,
    company_id: u128,
    req: CreateDriverRequest,
) -> bool {
    &&& d.id == id
    &&& d.company_id == company_id
    &&& d.first_name == req.first_name
    &&& d.last_name == req.last_name
    &&& d.email == req.email
    &&& d.phone == req.phone
    &&& d.cdl_number == req.cdl_number
    &&& d.cdl_state == Some(req.cdl_state)
    &&& d.cdl_class == Some(req.cdl_class)
    &&& d.cdl_expiry == req.cdl_expiry
    &&& d.employment_status == EmploymentStatus::Active
    &&& d.current_status == DriverStatus::OffDuty
    &&& d.total_miles == 0
    &&& d.total_loads == 0
    &&& d.safety_score is None
    &&& d.on_time_percentage is None
    &&& d.current_location is None
    &&& d.last_location_update is None
    &&& d.created_at == now
    &&& d.updated_at == now
}

/// What a lookup by identifier gives: the first row with that identifier,
/// or the report that there is none.
pub open spec fn driver_lookup_outcome(
    drivers: Seq<Driver>,
    id: u128,
    r: Result<Driver, ApiError>,
) -> bool {
    if contains_id(drivers, id) {
        r matches Ok(d) && d == drivers[position(drivers, id)]
    } else {
        r matches Err(ApiError::NotFound(m)) && m@ == not_found_text("Driver"@, id)
    }
}

/// The drivers of a company who can take a load.
pub open spec fn available_for(company_id: u128) -> spec_fn(Driver) -> bool {
    |d: Driver| d.company_id == company_id && d.assignable()
}

/// `a` is listed no later than `b`: by first name, and by last name where
/// the first names are the same.
pub open spec fn name_le(a: Driver, b: Driver) -> bool {
    let af = encode_utf8(a.first_name@);
    let bf = encode_utf8(b.first_name@);
    if af == bf {
        lex_le(encode_utf8(a.last_name@), encode_utf8(b.last_name@))
    } else {
        lex_le(af, bf)
    }
}

/// The drivers with a given first and last name.
pub open spec fn named(first: Seq<char>, last: Seq<char>) -> spec_fn(Driver) -> bool {
    |d: Driver| d.first_name@ == first && d.last_name@ == last
}

/// Names that sort earlier come first.
pub open spec fn sorted_by_name(v: Seq<Driver>) -> bool {
    forall|i: int, j: int| 0 <= i < j < v.len() ==> name_le(#[trigger] v[i], #[trigger] v[j])
}

/// Of two drivers one is listed no later than the other.
pub proof fn lemma_name_total(a: Driver, b: Driver)
    ensures
        name_le(a, b) || name_le(b, a),
{
    lemma_lex_total(encode_utf8(a.first_name@), encode_utf8(b.first_name@));
    lemma_lex_total(encode_utf8(a.last_name@), encode_utf8(b.last_name@));
}

/// The listing order carries over a driver in the middle.
pub proof fn lemma_name_transitive(a: Driver, b: Driver, c: Driver)
    requires
        name_le(a, b),
        name_le(b, c),
    ensures
        name_le(a, c),
{
    let af = encode_utf8(a.first_name@);
    let bf = encode_utf8(b.first_name@);
    let cf = encode_utf8(c.first_name@);
    let al = encode_utf8(a.last_name@);
    let bl = encode_utf8(b.last_name@);
    let cl = encode_utf8(c.last_name@);
    if af == bf && bf == cf {
        lemma_lex_transitive(al, bl, cl);
    } else if af == bf || bf == cf {
    } else {
        lemma_lex_transitive(af, bf, cf);
        if af == cf {
            lemma_lex_antisymmetric(af, bf);
        }
    }
}

/// Drivers of one name are listed together: each no later than the other.
pub proof fn lemma_same_name(a: Driver, b: Driver)
    requires
        a.first_name@ == b.first_name@,
        a.last_name@ == b.last_name@,
    ensures
        name_le(a, b),
        name_le(b, a),
{
    lemma_lex_reflexive(encode_utf8(a.last_name@));
}

/// A list stays in order when a driver goes in behind everyone listed no
/// later and before everyone listed no earlier.
proof fn lemma_insert_keeps_order(s: Seq<Driver>, k: int, d: Driver)
    requires
        sorted_by_name(s),
        0 <= k <= s.len(),
        forall|j: int| 0 <= j < k ==> name_le(#[trigger] s[j], d),
        forall|j: int| k <= j < s.len() ==> name_le(d, #[trigger] s[j]),
    ensures
        sorted_by_name(s.insert(k, d)),
{
    let t = s.insert(k, d);
    assert forall|i: int, j: int| 0 <= i < j < t.len() implies name_le(
        #[trigger] t[i],
        #[trigger] t[j],
    ) by {
        if j < k {
            assert(t[i] == s[i] && t[j] == s[j]);
        } else if j == k {
            assert(t[i] == s[i]);
        } else if i < k {
            assert(t[i] == s[i] && t[j] == s[j - 1]);
            if i == j - 1 {
            }
        } else if i == k {
            assert(t[j] == s[j - 1]);
        } else {
            assert(t[i] == s[i - 1] && t[j] == s[j - 1]);
        }
    }
}

/// Tells whether `a` is listed no later than `b`.
fn listed_no_later(a: &Driver, b: &Driver) -> (r: bool)
    ensures
        r == name_le(*a, *b),
{
    let af = a.first_name.as_str().as_bytes();
    let bf = b.first_name.as_str().as_bytes();
    if bytes_equal(af, bf) {
        bytes_le(a.last_name.as_str().as_bytes(), b.last_name.as_str().as_bytes())
    } else {
        bytes_le(af, bf)
    }
}

/// Where a driver goes in a list in order: behind everyone listed no later.
fn name_insertion_point(v: &Vec<Driver>, d: &Driver) -> (k: usize)
    requires
        sorted_by_name(v@),
    ensures
        k <= v@.len(),
        forall|j: int| 0 <= j < k ==> name_le(#[trigger] v@[j], *d),
        forall|j: int| k <= j < v@.len() ==> name_le(*d, #[trigger] v@[j]),
        forall|j: int| k <= j < v@.len() ==> !name_le(#[trigger] v@[j], *d),
{
    let mut k: usize = 0;
    while k < v.len() && listed_no_later(&v[k], d)
        invariant
            k <= v@.len(),
            forall|j: int| 0 <= j < k ==> name_le(#[trigger] v@[j], *d),
        decreases v@.len() - k,
    {
        k += 1;
    }
    proof {
        if k < v@.len() {
            lemma_name_total(v@[k as int], *d);
            assert forall|j: int| k <= j < v@.len() implies name_le(*d, #[trigger] v@[j])
                && !name_le(v@[j], *d) by {
                if k < j {
                    lemma_name_transitive(*d, v@[k as int], v@[j]);
                    if name_le(v@[j], *d) {
                        lemma_name_transitive(v@[k as int], v@[j], *d);
                    }
                }
            }
        }
    }
    k
}

/// The driver at a reported position with a reported status, as of `now`.
pub open spec fn relocated(d: Driver, req: UpdateDriverLocationRequest, now: Timestamp) -> Driver {
    Driver {
        current_location: Some(GeoPoint { longitude: req.longitude, latitude: req.latitude }),
        current_status: req.status,
        last_location_update: Some(now),
        ..d
    }
}

/// The table with one row replaced, the other tables as they were.
pub open spec fn drivers_replaced(before: AppState, after: AppState, i: int, row: Driver) -> bool {
    &&& after.drivers@ == before.drivers@.update(i, row)
    &&& after.loads == before.loads
    &&& after.customers == before.customers
    &&& after.trucks == before.trucks
    &&& after.trailers == before.trailers
}

/// The operations on the drivers table.
pub struct DriverRepository;

impl DriverRepository {
    /// Registers a driver for the company under the given identifier:
    /// employed and off duty. The request is turned down, and nothing is
    /// written, exactly where the identifier is taken.
    pub fn create(
        state: &mut AppState,
        id: u128,
        now: Timestamp,
        company_id: u128,
        req: CreateDriverRequest,
    ) -> (r: Result<Driver, ApiError>)
        ensures
            match driver_rejection(*old(state), id) {
                Some(reason) => {
                    &&& r matches Err(ApiError::ValidationError(m)) && m@ == reason
                    &&& *final(state) == *old(state)
                },
                None => {
                    &&& r matches Ok(d) && is_new_driver(d, id, now, company_id, req)
                        && final(state).drivers@ == old(state).drivers@.push(d)
                    &&& final(state).loads == old(state).loads
                    &&& final(state).customers == old(state).customers
                    &&& final(state).trucks == old(state).trucks
                    &&& final(state).trailers == old(state).trailers
                },
            },
            old(state).wf() ==> final(state).wf(),
    {
        if find(&state.drivers, id).is_some() {
            return Err(
                ApiError::ValidationError(
                    String::from_str("a driver with this id already exists"),
                ),
            );
        }
        let driver = Driver {
            id,
            company_id,
            first_name: req.first_name,
            last_name: req.last_name,
            email: req.email,
            phone: req.phone,
            cdl_number: req.cdl_number,
            cdl_state: Some(req.cdl_state),
            cdl_class: Some(req.cdl_class),
            cdl_expiry: req.cdl_expiry,
            employment_status: EmploymentStatus::Active,
            current_status: DriverStatus::OffDuty,
            total_miles: 0,
            total_loads: 0,
            safety_score: None,
            on_time_percentage: None,
            current_location: None,
            last_location_update: None,
            created_at: now,
            updated_at: now,
        };
        let stored = driver.clone();
        state.drivers.push(stored);
        Ok(driver)
    }

    /// Looks a driver up by its identifier.
    pub fn find_by_id(state: &AppState, id: u128) -> (r: Result<Driver, ApiError>)
        ensures
            driver_lookup_outcome(state.drivers@, id, r),
    {
        match find(&state.drivers, id) {
            Some(i) => Ok(state.drivers[i].clone()),
            None => Err(ApiError::not_found("Driver", id)),
        }
    }

    /// The drivers of a company who are employed and available or off duty,
    /// by first name and then last name. Each such driver of the table comes
    /// out exactly once, and drivers of one name come out in the order of
    /// the table.
    pub fn list_available(state: &AppState, company_id: u128) -> (r: Result<Vec<Driver>, ApiError>)
        ensures
            r matches Ok(v) && {
                &&& sorted_by_name(v@)
                &&& v@.to_multiset() == state.drivers@.filter(
                    available_for(company_id),
                ).to_multiset()
                &&& forall|first: Seq<char>, last: Seq<char>|
                    #![trigger named(first, last)]
                    v@.filter(named(first, last)) == state.drivers@.filter(
                        available_for(company_id),
                    ).filter(named(first, last))
                &&& forall|k: int|
                    0 <= k < v@.len() ==> (#[trigger] v@[k]).company_id == company_id
                        && v@[k].assignable()
            },
    {
        let mut out: Vec<Driver> = Vec::new();
        let mut i: usize = 0;
        proof {
            assert(state.drivers@.take(0) =~= Seq::<Driver>::empty());
            state.drivers@.take(0).lemma_filter_len(available_for(company_id));
            assert(state.drivers@.take(0).filter(available_for(company_id)) =~= Seq::<
                Driver,
            >::empty());
        }
        while i < state.drivers.len()
            invariant
                i <= state.drivers.len(),
                sorted_by_name(out@),
                out@.to_multiset() == state.drivers@.take(i as int).filter(
                    available_for(company_id),
                ).to_multiset(),
                forall|first: Seq<char>, last: Seq<char>|
                    #![trigger named(first, last)]
                    out@.filter(named(first, last)) == state.drivers@.take(i as int).filter(
                        available_for(company_id),
                    ).filter(named(first, last)),
                forall|k: int|
                    0 <= k < out@.len() ==> (#[trigger] out@[k]).company_id == company_id
                        && out@[k].assignable(),
            decreases state.drivers.len() - i,
        {
            let row = &state.drivers[i];
            proof {
                let seen = state.drivers@.take(i as int);
                assert(state.drivers@.take(i + 1) =~= seen.push(*row));
                seen.lemma_filter_push(*row, available_for(company_id));
            }
            if row.company_id == company_id && row.is_assignable() {
                let k = name_insertion_point(&out, row);
                proof {
                    let listed = state.drivers@.take(i as int).filter(available_for(company_id));
                    lemma_insert_to_multiset(out@, k as int, *row);
                    lemma_insert_keeps_order(out@, k as int, *row);
                    listed.to_multiset_ensures();
                    assert forall|first: Seq<char>, last: Seq<char>|
                        #![trigger named(first, last)]
                        out@.insert(k as int, *row).filter(named(first, last)) == listed.push(
                            *row,
                        ).filter(named(first, last)) by {
                        let same = named(first, last);
                        if same(*row) {
                            assert forall|j: int| k <= j < out@.len() implies !same(
                                #[trigger] out@[j],
                            ) by {
                                if same(out@[j]) {
                                    lemma_same_name(out@[j], *row);
                                }
                            }
                        }
                        lemma_filter_insert(out@, k as int, *row, same);
                        listed.lemma_filter_push(*row, same);
                    }
                }
                out.insert(k, row.clone());
            }
            i += 1;
        }
        proof {
            assert(state.drivers@.take(i as int) =~= state.drivers@);
        }
        Ok(out)
    }

    /// Records where a driver is and what the driver is doing. Fails, and
    /// writes nothing, exactly where no driver has the identifier. No load
    /// is touched either way.
    pub fn update_location(
        state: &mut AppState,
        id: u128,
        req: UpdateDriverLocationRequest,
        now: Timestamp,
    ) -> (r: Result<(), ApiError>)
        ensures
            match r {
                Ok(_) => {
                    let i = position(old(state).drivers@, id);
                    &&& contains_id(old(state).drivers@, id)
                    &&& drivers_replaced(
                        *old(state),
                        *final(state),
                        i,
                        relocated(old(state).drivers@[i], req, now),
                    )
                },
                Err(e) => {
                    &&& !contains_id(old(state).drivers@, id)
                    &&& e matches ApiError::NotFound(m) && m@ == not_found_text("Driver"@, id)
                    &&& *final(state) == *old(state)
                },
            },
            old(state).wf() ==> final(state).wf(),
    {
        match find(&state.drivers, id) {
            Some(i) => {
                let mut row = state.drivers[i].clone();
                row.current_location = Some(
                    GeoPoint { longitude: req.longitude, latitude: req.latitude },
                );
                row.current_status = req.status;
                row.last_location_update = Some(now);
                state.drivers.set(i, row);
                Ok(())
            },
            None => Err(ApiError::not_found("Driver", id)),
        }
    }
}

} // verus!
