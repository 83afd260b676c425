//! The load lifecycle: opening a load, moving it through its states, binding
//! resources to it, and the queries over the loads of a company.

use crate::dispatch::{assignment_refusal, check_eligibility, Eligibility};
use crate::error::{not_found_text, ApiError};
use crate::model::{
    AssignDriverRequest, CreateLoadRequest, Customer, Date, FinancialSummary, Load, LoadStatus,
    Timestamp,
};
use crate::state::{
    contains_id, find, lemma_filter_insert, lemma_insert_to_multiset, position, AppState,
};
use vstd::prelude::*;
use vstd::string::StringExecFns;

verus! {

/// The customer exists and belongs to the company.
pub open spec fn customer_valid(customers: Seq<Customer>, company_id: u128, customer_id: u128) -> bool {
    contains_id(customers, customer_id) && customers[position(
        customers,
        customer_id,
    )].company_id == company_id
}

/// Why a request to open a load is turned down, if it is. The checks are
/// made in this order: the load number, the dates, the customer, the
/// identifier.
pub open spec fn create_rejection(
    state: AppState,
    id: u128,
    company_id: u128,
    req: CreateLoadRequest,
) -> Option<Seq<char>> {
    if req.load_number@.len() == 0 {
        Some("load_number must not be empty"@)
    } else if req.pickup_date.days > req.delivery_date.days {
        Some("pickup_date must not be after delivery_date"@)
    } else if !customer_valid(state.customers@, company_id, req.customer_id) {
        Some("customer_id does not name a customer of this company"@)
    } else if contains_id(state.loads@, id) {
        Some("a load with this id already exists"@)
    } else {
        None
    }
}

/// The load is the one that the request opens: pending, with no resources
/// and no money on it, and every other field as the request gives it.
pub open spec fn is_new_load(
    l: Load,
    id: u128,
    now: Timestamp,
    company_id: u128,
    req: CreateLoadRequest,
) -> bool {
    &&& l.id == id
    &&& l.company_id == company_id
    &&& l.load_number == req.load_number
    &&& l.reference_number == req.reference_number
    &&& l.bol_number is None
    &&& l.load_type == req.load_type
    &&& l.mode@ == Seq::<char>::empty()
    &&& l.customer_id == Some(req.customer_id)
    &&& l.carrier_id is None
    &&& l.truck_id is None
    &&& l.trailer_id is None
    &&& l.driver_id is None
    &&& l.equipment_type == Some(req.equipment_type)
    &&& l.total_weight_lbs == req.total_weight_lbs
    &&& l.total_pieces is None
    &&& l.commodity_description == req.commodity_description
    &&& l.status == LoadStatus::Pending
    &&& l.pickup_date == req.pickup_date
    &&& l.delivery_date == req.delivery_date
    &&& l.customer_rate is None
    &&& l.carrier_rate is None
    &&& l.total_revenue is None
    &&& l.total_cost is None
    &&& l.profit_margin is None
    &&& l.total_miles is None
    &&& l.created_at == now
    &&& l.updated_at == now
}

/// The load with a new status, touched at `now`.
pub open spec fn with_status(l: Load, status: LoadStatus, now: Timestamp) -> Load {
    Load { status, updated_at: now, ..l }
}

/// The load bound to a driver, a truck and perhaps a trailer, and
/// dispatched, touched at `now`. Whatever was bound before is gone.
pub open spec fn assigned(
    l: Load,
    driver_id: u128,
    truck_id: u128,
    trailer_id: Option<u128>,
    now: Timestamp,
) -> Load {
    Load {
        driver_id: Some(driver_id),
        truck_id: Some(truck_id),
        trailer_id,
        status: LoadStatus::Dispatched,
        updated_at: now,
        ..l
    }
}

/// The table with one row replaced, the other tables as they were.
pub open spec fn loads_replaced(before: AppState, after: AppState, i: int, row: Load) -> bool {
    &&& after.loads@ == before.loads@.update(i, row)
    &&& after.drivers == before.drivers
    &&& after.customers == before.customers
    &&& after.trucks == before.trucks
    &&& after.trailers == before.trailers
}

/// What a lookup by identifier gives: the first row with that identifier,
/// or the report that there is none.
pub open spec fn lookup_outcome(loads: Seq<Load>, id: u128, r: Result<Load, ApiError>) -> bool {
    if contains_id(loads, id) {
        r matches Ok(l) && l == loads[position(loads, id)]
    } else {
        r matches Err(ApiError::NotFound(m)) && m@ == not_found_text("Load"@, id)
    }
}

/// The loads of a company that are still to be worked on.
pub open spec fn active_for(company_id: u128) -> spec_fn(Load) -> bool {
    |l: Load| l.company_id == company_id && !l.status.terminal()
}

/// The loads that are picked up on a given day.
pub open spec fn picked_up_on(day: int) -> spec_fn(Load) -> bool {
    |l: Load| l.pickup_date.days == day
}

/// Earlier pickups come first.
pub open spec fn sorted_by_pickup(v: Seq<Load>) -> bool {
    forall|i: int, j: int|
        0 <= i <= j < v.len() ==> (#[trigger] v[i]).pickup_date.days <= (
        #[trigger] v[j]).pickup_date.days
}

/// The load counts towards the summary of the company for the window: it is
/// the company's, it was picked up within the window, both ends included,
/// and it is delivered or completed.
pub open spec fn counted(l: Load, company_id: u128, start: Date, end: Date) -> bool {
    &&& l.company_id == company_id
    &&& start.days <= l.pickup_date.days <= end.days
    &&& l.status.billable()
}

/// An amount that may be missing; a missing one counts as nothing.
pub open spec fn amount(x: Option<i64>) -> int {
    match x {
        Some(v) => v as int,
        None => 0,
    }
}

/// A distance that may be missing; a missing one counts as nothing.
pub open spec fn distance(x: Option<i32>) -> int {
    match x {
        Some(v) => v as int,
        None => 0,
    }
}

/// Totals as mathematical integers.
pub struct Totals {
    pub loads: int,
    pub revenue: int,
    pub cost: int,
    pub profit: int,
    pub miles: int,
}

/// The totals with one more load counted.
pub open spec fn plus_load(t: Totals, l: Load) -> Totals {
    Totals {
        loads: t.loads + 1,
        revenue: t.revenue + amount(l.total_revenue),
        cost: t.cost + amount(l.total_cost),
        profit: t.profit + amount(l.profit_margin),
        miles: t.miles + distance(l.total_miles),
    }
}

/// The totals over the loads that count for the company and the window.
pub open spec fn totals(loads: Seq<Load>, company_id: u128, start: Date, end: Date) -> Totals
    decreases loads.len(),
{
    if loads.len() == 0 {
        Totals { loads: 0, revenue: 0, cost: 0, profit: 0, miles: 0 }
    } else {
        let rest = totals(loads.drop_last(), company_id, start, end);
        if counted(loads.last(), company_id, start, end) {
            plus_load(rest, loads.last())
        } else {
            rest
        }
    }
}

impl View for FinancialSummary {
    type V = Totals;

    open spec fn view(&self) -> Totals {
        Totals {
            loads: self.total_loads as int,
            revenue: self.total_revenue as int,
            cost: self.total_cost as int,
            profit: self.total_profit as int,
            miles: self.total_miles as int,
        }
    }
}

/// The operations on the loads table.
pub struct LoadRepository;

impl LoadRepository {
    /// Opens a load for the company under the given identifier. The request
    /// is turned down, and nothing is written, exactly where
    /// `create_rejection` names a reason; otherwise the new load is pending,
    /// carries no resources, and is appended to the table.
    pub fn create(
        state: &mut AppState,
        id: u128,
        now: Timestamp,
        company_id: u128,
        req: CreateLoadRequest,
    ) -> (r: Result<Load, ApiError>)
        ensures
            match create_rejection(*old(state), id, company_id, req) {
                Some(reason) => {
                    &&& r matches Err(ApiError::ValidationError(m)) && m@ == reason
                    &&& *final(state) == *old(state)
                },
                None => {
                    &&& r matches Ok(l) && is_new_load(l, id, now, company_id, req)
                        && final(state).loads@ == old(state).loads@.push(l)
                    &&& final(state).drivers == old(state).drivers
                    &&& final(state).customers == old(state).customers
                    &&& final(state).trucks == old(state).trucks
                    &&& final(state).trailers == old(state).trailers
                },
            },
            old(state).wf() ==> final(state).wf(),
    {
        if req.load_number.as_str().is_empty() {
            return Err(
                ApiError::ValidationError(String::from_str("load_number must not be empty")),
            );
        }
        if req.pickup_date.days > req.delivery_date.days {
            return Err(
                ApiError::ValidationError(
                    String::from_str("pickup_date must not be after delivery_date"),
                ),
            );
        }
        let customer_ok = match find(&state.customers, req.customer_id) {
            Some(c) => state.customers[c].company_id == company_id,
            None => false,
        };
        if !customer_ok {
            return Err(
                ApiError::ValidationError(
                    String::from_str("customer_id does not name a customer of this company"),
                ),
            );
        }
        if find(&state.loads, id).is_some() {
            return Err(
                ApiError::ValidationError(String::from_str("a load with this id already exists")),
            );
        }
        let load = Load {
            id,
            company_id,
            load_number: req.load_number,
            reference_number: req.reference_number,
            bol_number: None,
            load_type: req.load_type,
            mode: String::new(),
            customer_id: Some(req.customer_id),
            carrier_id: None,
            truck_id: None,
            trailer_id: None,
            driver_id: None,
            equipment_type: Some(req.equipment_type),
            total_weight_lbs: req.total_weight_lbs,
            total_pieces: None,
            commodity_description: req.commodity_description,
            status: LoadStatus::Pending,
            pickup_date: req.pickup_date,
            delivery_date: req.delivery_date,
            customer_rate: None,
            carrier_rate: None,
            total_revenue: None,
            total_cost: None,
            profit_margin: None,
            total_miles: None,
            created_at: now,
            updated_at: now,
        };
        let stored = load.clone();
        state.loads.push(stored);
        Ok(load)
    }

    /// Looks a load up by its identifier.
    pub fn find_by_id(state: &AppState, id: u128) -> (r: Result<Load, ApiError>)
        ensures
            lookup_outcome(state.loads@, id, r),
    {
        match find(&state.loads, id) {
            Some(i) => Ok(state.loads[i].clone()),
            None => Err(ApiError::not_found("Load", id)),
        }
    }

    /// Sets the status of a load, whatever it was before. Fails, and writes
    /// nothing, exactly where no load has the identifier.
    pub fn update_status(
        state: &mut AppState,
        id: u128,
        status: LoadStatus,
        now: Timestamp,
    ) -> (r: Result<Load, ApiError>)
        ensures
            match r {
                Ok(l) => {
                    let i = position(old(state).loads@, id);
                    &&& contains_id(old(state).loads@, id)
                    &&& l == with_status(old(state).loads@[i], status, now)
                    &&& loads_replaced(*old(state), *final(state), i, l)
                },
                Err(e) => {
                    &&& !contains_id(old(state).loads@, id)
                    &&& e matches ApiError::NotFound(m) && m@ == not_found_text("Load"@, id)
                    &&& *final(state) == *old(state)
                },
            },
            old(state).wf() ==> final(state).wf(),
    {
        match find(&state.loads, id) {
            Some(i) => {
                let mut row = state.loads[i].clone();
                row.status = status;
                row.updated_at = now;
                let out = row.clone();
                state.loads.set(i, row);
                Ok(out)
            },
            None => Err(ApiError::not_found("Load", id)),
        }
    }

    /// Binds a driver, a truck and perhaps a trailer to a load and dispatches
    /// it, provided that all of them exist and that the rule of assignment
    /// allows it. A refused assignment writes nothing. A granted one replaces
    /// whatever was bound to the load before, whatever its status was.
    pub fn assign_driver(
        state: &mut AppState,
        load_id: u128,
        driver_id: u128,
        truck_id: u128,
        trailer_id: Option<u128>,
        now: Timestamp,
    ) -> (r: Result<Load, ApiError>)
        ensures
            match assignment_refusal(
                *old(state),
                load_id,
                (AssignDriverRequest { driver_id, truck_id, trailer_id }),
            ) {
                Some((kind, text)) => {
                    &&& r matches Err(e) && e.kind() == kind && e.detail() == text
                    &&& *final(state) == *old(state)
                },
                None => {
                    let i = position(old(state).loads@, load_id);
                    let row = assigned(old(state).loads@[i], driver_id, truck_id, trailer_id, now);
                    r == Ok::<Load, ApiError>(row) && loads_replaced(
                        *old(state),
                        *final(state),
                        i,
                        row,
                    )
                },
            },
            old(state).wf() ==> final(state).wf(),
    {
        let i = match find(&state.loads, load_id) {
            Some(i) => i,
            None => {
                return Err(ApiError::not_found("Load", load_id));
            },
        };
        let d = match find(&state.drivers, driver_id) {
            Some(d) => d,
            None => {
                return Err(ApiError::not_found("Driver", driver_id));
            },
        };
        let t = match find(&state.trucks, truck_id) {
            Some(t) => t,
            None => {
                return Err(ApiError::not_found("Truck", truck_id));
            },
        };
        let trailer = match trailer_id {
            Some(id) => match find(&state.trailers, id) {
                Some(k) => Some(state.trailers[k]),
                None => {
                    return Err(ApiError::not_found("Trailer", id));
                },
            },
            None => None,
        };
        match check_eligibility(&state.drivers[d], &state.trucks[t], trailer, &state.loads[i]) {
            Eligibility::Eligible => {},
            Eligibility::Ineligible(reason) => {
                return Err(reason.to_error());
            },
        }
        let mut row = state.loads[i].clone();
        row.driver_id = Some(driver_id);
        row.truck_id = Some(truck_id);
        row.trailer_id = trailer_id;
        row.status = LoadStatus::Dispatched;
        row.updated_at = now;
        let out = row.clone();
        state.loads.set(i, row);
        Ok(out)
    }

    /// The loads of a company that are neither delivered, completed nor
    /// cancelled, earliest pickup first. Each such load of the table comes
    /// out exactly once, and loads that are picked up on the same day come
    /// out in the order of the table.
    pub fn list_active(state: &AppState, company_id: u128) -> (r: Result<Vec<Load>, ApiError>)
        ensures
            r matches Ok(v) && {
                &&& sorted_by_pickup(v@)
                &&& v@.to_multiset() == state.loads@.filter(active_for(company_id)).to_multiset()
                &&& forall|day: int|
                    #![trigger picked_up_on(day)]
                    v@.filter(picked_up_on(day)) == state.loads@.filter(
                        active_for(company_id),
                    ).filter(picked_up_on(day))
                &&& forall|k: int|
                    0 <= k < v@.len() ==> (#[trigger] v@[k]).company_id == company_id
                        && !v@[k].status.terminal()
            },
    {
        let mut out: Vec<Load> = Vec::new();
        let mut i: usize = 0;
        proof {
            assert(state.loads@.take(0) =~= Seq::<Load>::empty());
            state.loads@.take(0).lemma_filter_len(active_for(company_id));
            assert(state.loads@.take(0).filter(active_for(company_id)) =~= Seq::<Load>::empty());
        }
        while i < state.loads.len()
            invariant
                i <= state.loads.len(),
                sorted_by_pickup(out@),
                out@.to_multiset() == state.loads@.take(i as int).filter(
                    active_for(company_id),
                ).to_multiset(),
                forall|day: int|
                    #![trigger picked_up_on(day)]
                    out@.filter(picked_up_on(day)) == state.loads@.take(i as int).filter(
                        active_for(company_id),
                    ).filter(picked_up_on(day)),
                forall|k: int|
                    0 <= k < out@.len() ==> (#[trigger] out@[k]).company_id == company_id
                        && !out@[k].status.terminal(),
            decreases state.loads.len() - i,
        {
            let row = &state.loads[i];
            proof {
                let seen = state.loads@.take(i as int);
                assert(state.loads@.take(i + 1) =~= seen.push(*row));
                seen.lemma_filter_push(*row, active_for(company_id));
            }
            if row.company_id == company_id && !row.status.is_terminal() {
                let k = insertion_point(&out, row.pickup_date);
                proof {
                    let listed = state.loads@.take(i as int).filter(active_for(company_id));
                    lemma_insert_to_multiset(out@, k as int, *row);
                    listed.to_multiset_ensures();
                    assert forall|day: int|
                        #![trigger picked_up_on(day)]
                        out@.insert(k as int, *row).filter(picked_up_on(day)) == listed.push(
                            *row,
                        ).filter(picked_up_on(day)) by {
                        lemma_filter_insert(out@, k as int, *row, picked_up_on(day));
                        listed.lemma_filter_push(*row, picked_up_on(day));
                    }
                }
                out.insert(k, row.clone());
            }
            i += 1;
        }
        proof {
            assert(state.loads@.take(i as int) =~= state.loads@);
        }
        Ok(out)
    }

    /// Counts and sums the delivered and completed loads of a company whose
    /// pickup date lies in the window, both ends included. A missing amount
    /// or distance adds nothing.
    pub fn get_financial_summary(
        state: &AppState,
        company_id: u128,
        start_date: Date,
        end_date: Date,
    ) -> (r: Result<FinancialSummary, ApiError>)
        ensures
            r matches Ok(s) && s@ == totals(state.loads@, company_id, start_date, end_date),
    {
        let mut sum = FinancialSummary {
            total_loads: 0,
            total_revenue: 0,
            total_cost: 0,
            total_profit: 0,
            total_miles: 0,
        };
        let mut i: usize = 0;
        proof {
            assert(state.loads@.take(0) =~= Seq::<Load>::empty());
        }
        while i < state.loads.len()
            invariant
                i <= state.loads.len(),
                sum@ == totals(state.loads@.take(i as int), company_id, start_date, end_date),
                sum.total_loads <= i,
                within(sum.total_revenue as int, i as int),
                within(sum.total_cost as int, i as int),
                within(sum.total_profit as int, i as int),
                within(sum.total_miles as int, i as int),
            decreases state.loads.len() - i,
        {
            let row = &state.loads[i];
            proof {
                let next = state.loads@.take(i + 1);
                assert(next.drop_last() =~= state.loads@.take(i as int));
                assert(next.last() == *row);
            }
            if row.company_id == company_id && start_date.days <= row.pickup_date.days
                && row.pickup_date.days <= end_date.days && row.status.is_billable() {
                sum.total_loads = sum.total_loads + 1;
                sum.total_revenue = sum.total_revenue + cents(row.total_revenue);
                sum.total_cost = sum.total_cost + cents(row.total_cost);
                sum.total_profit = sum.total_profit + cents(row.profit_margin);
                sum.total_miles = sum.total_miles + miles(row.total_miles);
            }
            i += 1;
        }
        proof {
            assert(state.loads@.take(i as int) =~= state.loads@);
        }
        Ok(sum)
    }
}

/// A running sum over `n` amounts of 64 bits stays within `n` times their
/// range.
pub open spec fn within(sum: int, n: int) -> bool {
    -n * 0x8000_0000_0000_0000 <= sum <= n * 0x8000_0000_0000_0000
}

fn cents(x: Option<i64>) -> (r: i128)
    ensures
        r == amount(x),
{
    match x {
        Some(v) => v as i128,
        None => 0,
    }
}

fn miles(x: Option<i32>) -> (r: i128)
    ensures
        r == distance(x),
{
    match x {
        Some(v) => v as i128,
        None => 0,
    }
}

/// Where a load with the given pickup date goes in a sorted list: behind
/// every load that is picked up on that day or earlier.
fn insertion_point(v: &Vec<Load>, date: Date) -> (k: usize)
    requires
        sorted_by_pickup(v@),
    ensures
        k <= v@.len(),
        forall|j: int| 0 <= j < k ==> (#[trigger] v@[j]).pickup_date.days <= date.days,
        forall|j: int| k <= j < v@.len() ==> date.days < (#[trigger] v@[j]).pickup_date.days,
{
    let mut k: usize = 0;
    while k < v.len() && v[k].pickup_date.days <= date.days
        invariant
            k <= v@.len(),
            forall|j: int| 0 <= j < k ==> (#[trigger] v@[j]).pickup_date.days <= date.days,
        decreases v@.len() - k,
    {
        k += 1;
    }
    k
}

} // verus!
