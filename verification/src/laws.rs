//! What holds of the engine as a whole, proved from the contracts of its
//! operations.

use crate::dispatch::{assignment_refusal, eligibility, trailer_row, Eligibility};
use crate::drivers::{drivers_replaced, relocated};
use crate::error::{not_found_text, ApiError, ErrorKind};
use crate::loads::{
    assigned, counted, create_rejection, is_new_load, loads_replaced, lookup_outcome, totals,
    with_status,
};
use crate::model::{
    AssignDriverRequest, CreateLoadRequest, Date, Driver, EmploymentStatus, Equipment, GeoPoint,
    Load, LoadStatus, Timestamp, UpdateDriverLocationRequest,
};
use crate::state::{
    contains_id, lemma_position_exists, lemma_update_keeps_position, position, AppState,
};
use vstd::prelude::*;

verus! {

/// A load that has just been opened is pending, carries no driver, truck or
/// trailer, and keeps the invariant of a load when its dates are in order.
pub proof fn law_new_load_is_pending_and_unassigned(
    l: Load,
    id: u128,
    now: Timestamp,
    company_id: u128,
    req: CreateLoadRequest,
)
    requires
        is_new_load(l, id, now, company_id, req),
    ensures
        l.status == LoadStatus::Pending,
        l.unassigned(),
        req.pickup_date.days <= req.delivery_date.days ==> l.wf(),
{
}

/// A request whose pickup date is after its delivery date is turned down,
/// whatever else it says and whatever the tables hold.
pub proof fn law_late_pickup_is_rejected(
    state: AppState,
    id: u128,
    company_id: u128,
    req: CreateLoadRequest,
)
    requires
        req.pickup_date.days > req.delivery_date.days,
    ensures
        create_rejection(state, id, company_id, req) is Some,
{
}

/// After an assignment the load, looked up again, is dispatched and carries
/// exactly the driver, the truck and the trailer that were given: no trailer
/// where none was given. Its status and resources before do not matter.
pub proof fn law_assignment_dispatches(
    before: AppState,
    after: AppState,
    load_id: u128,
    driver_id: u128,
    truck_id: u128,
    trailer_id: Option<u128>,
    now: Timestamp,
)
    requires
        contains_id(before.loads@, load_id),
        loads_replaced(
            before,
            after,
            position(before.loads@, load_id),
            assigned(
                before.loads@[position(before.loads@, load_id)],
                driver_id,
                truck_id,
                trailer_id,
                now,
            ),
        ),
    ensures
        contains_id(after.loads@, load_id),
        ({
            let l = after.loads@[position(after.loads@, load_id)];
            &&& l.status == LoadStatus::Dispatched
            &&& l.driver_id == Some(driver_id)
            &&& l.truck_id == Some(truck_id)
            &&& l.trailer_id == trailer_id
        }),
{
    let i = position(before.loads@, load_id);
    lemma_position_exists(before.loads@, load_id);
    lemma_update_keeps_position(
        before.loads@,
        load_id,
        assigned(before.loads@[i], driver_id, truck_id, trailer_id, now),
    );
}

/// A change of status shows when the load is looked up again, and touches
/// nothing else of it but the time of the change.
pub proof fn law_status_is_set(
    before: AppState,
    after: AppState,
    id: u128,
    status: LoadStatus,
    now: Timestamp,
)
    requires
        contains_id(before.loads@, id),
        loads_replaced(
            before,
            after,
            position(before.loads@, id),
            with_status(before.loads@[position(before.loads@, id)], status, now),
        ),
    ensures
        contains_id(after.loads@, id),
        after.loads@[position(after.loads@, id)] == with_status(
            before.loads@[position(before.loads@, id)],
            status,
            now,
        ),
        after.loads@[position(after.loads@, id)].status == status,
{
    let i = position(before.loads@, id);
    lemma_position_exists(before.loads@, id);
    lemma_update_keeps_position(before.loads@, id, with_status(before.loads@[i], status, now));
}

/// An assignment to a load that does not exist is refused as not found,
/// whatever the request names.
pub proof fn law_missing_load_is_not_found(state: AppState, load_id: u128, req: AssignDriverRequest)
    requires
        !contains_id(state.loads@, load_id),
    ensures
        assignment_refusal(state, load_id, req) == Some(
            (ErrorKind::NotFound, not_found_text("Load"@, load_id)),
        ),
{
}

/// An assignment is granted only to an eligible driver and equipment: where
/// the load, the driver, the truck and the trailer, if one is named, all
/// exist and the rule of assignment names a reason, the assignment is
/// refused for that reason.
pub proof fn law_ineligible_assignment_is_refused(
    state: AppState,
    load_id: u128,
    req: AssignDriverRequest,
)
    requires
        contains_id(state.loads@, load_id),
        contains_id(state.drivers@, req.driver_id),
        contains_id(state.trucks@, req.truck_id),
        req.trailer_id is Some ==> contains_id(state.trailers@, req.trailer_id->0),
    ensures
        match eligibility(
            state.drivers@[position(state.drivers@, req.driver_id)],
            state.trucks@[position(state.trucks@, req.truck_id)],
            trailer_row(state, req.trailer_id),
            state.loads@[position(state.loads@, load_id)],
        ) {
            Eligibility::Eligible => assignment_refusal(state, load_id, req) is None,
            Eligibility::Ineligible(reason) => assignment_refusal(state, load_id, req) == Some(
                (reason.kind(), reason.text()),
            ),
        },
{
}

/// No load is assigned to a driver who is not actively employed, whatever
/// the driver is doing right now: the assignment is refused.
pub proof fn law_inactive_driver_is_never_assigned(
    state: AppState,
    load_id: u128,
    req: AssignDriverRequest,
)
    requires
        contains_id(state.drivers@, req.driver_id),
        state.drivers@[position(state.drivers@, req.driver_id)].employment_status
            != EmploymentStatus::Active,
    ensures
        assignment_refusal(state, load_id, req) is Some,
{
}

/// A position report shows when the driver is looked up again: the driver
/// is where the report says, does what it says, and was seen at the time of
/// the report.
pub proof fn law_location_is_recorded(
    before: AppState,
    after: AppState,
    id: u128,
    req: UpdateDriverLocationRequest,
    now: Timestamp,
)
    requires
        contains_id(before.drivers@, id),
        drivers_replaced(
            before,
            after,
            position(before.drivers@, id),
            relocated(before.drivers@[position(before.drivers@, id)], req, now),
        ),
    ensures
        contains_id(after.drivers@, id),
        ({
            let d = after.drivers@[position(after.drivers@, id)];
            &&& d.current_location == Some(
                GeoPoint { longitude: req.longitude, latitude: req.latitude },
            )
            &&& d.current_status == req.status
            &&& d.last_location_update == Some(now)
        }),
        after.loads == before.loads,
{
    let i = position(before.drivers@, id);
    lemma_position_exists(before.drivers@, id);
    lemma_update_keeps_position(before.drivers@, id, relocated(before.drivers@[i], req, now));
}

/// A driver who is not actively employed may take no load, whatever the
/// driver is doing right now and whatever truck, trailer and load are named.
pub proof fn law_inactive_driver_is_ineligible(
    driver: Driver,
    truck: Equipment,
    trailer: Option<Equipment>,
    load: Load,
)
    requires
        driver.employment_status != EmploymentStatus::Active,
    ensures
        eligibility(driver, truck, trailer, load) is Ineligible,
{
}

/// An eligible driver is actively employed and available or off duty, and
/// driver, truck and trailer all belong to the load's company.
pub proof fn law_eligible_means_all_rules_hold(
    driver: Driver,
    truck: Equipment,
    trailer: Option<Equipment>,
    load: Load,
)
    ensures
        eligibility(driver, truck, trailer, load) == Eligibility::Eligible <==> {
            &&& driver.assignable()
            &&& driver.company_id == load.company_id
            &&& truck.company_id == load.company_id
            &&& (trailer is Some ==> trailer->0.company_id == load.company_id)
        },
{
}

/// A load that does not count towards a summary can be left out of the
/// table without changing the summary.
pub proof fn law_uncounted_load_adds_nothing(
    loads: Seq<Load>,
    i: int,
    company_id: u128,
    start: Date,
    end: Date,
)
    requires
        0 <= i < loads.len(),
        !counted(loads[i], company_id, start, end),
    ensures
        totals(loads.remove(i), company_id, start, end) == totals(loads, company_id, start, end),
    decreases loads.len(),
{
    if i == loads.len() - 1 {
        assert(loads.remove(i) =~= loads.drop_last());
    } else {
        let shorter = loads.remove(i);
        assert(shorter.drop_last() =~= loads.drop_last().remove(i));
        assert(shorter.last() == loads.last());
        law_uncounted_load_adds_nothing(loads.drop_last(), i, company_id, start, end);
    }
}

/// A load that is picked up outside the window does not change the summary,
/// even where it is delivered inside the window.
pub proof fn law_pickup_outside_window_is_excluded(
    loads: Seq<Load>,
    i: int,
    company_id: u128,
    start: Date,
    end: Date,
)
    requires
        0 <= i < loads.len(),
        loads[i].pickup_date.days < start.days || end.days < loads[i].pickup_date.days,
    ensures
        totals(loads.remove(i), company_id, start, end) == totals(loads, company_id, start, end),
{
    law_uncounted_load_adds_nothing(loads, i, company_id, start, end);
}

/// A load that counts adds one to the count, and to each sum the amount it
/// carries: nothing where it carries none.
pub proof fn law_counted_load_adds_its_amounts(
    loads: Seq<Load>,
    l: Load,
    company_id: u128,
    start: Date,
    end: Date,
)
    requires
        counted(l, company_id, start, end),
    ensures
        ({
            let before = totals(loads, company_id, start, end);
            let after = totals(loads.push(l), company_id, start, end);
            &&& after.loads == before.loads + 1
            &&& after.revenue == before.revenue + if l.total_revenue is Some {
                l.total_revenue->0 as int
            } else {
                0
            }
            &&& after.cost == before.cost + if l.total_cost is Some {
                l.total_cost->0 as int
            } else {
                0
            }
            &&& after.profit == before.profit + if l.profit_margin is Some {
                l.profit_margin->0 as int
            } else {
                0
            }
            &&& after.miles == before.miles + if l.total_miles is Some {
                l.total_miles->0 as int
            } else {
                0
            }
        }),
{
    assert(loads.push(l).drop_last() =~= loads);
}

/// Two lookups of one identifier in one table give the same answer: the
/// same load, or the same report that there is none.
pub proof fn law_lookup_is_repeatable(
    loads: Seq<Load>,
    id: u128,
    first: Result<Load, ApiError>,
    second: Result<Load, ApiError>,
)
    requires
        lookup_outcome(loads, id, first),
        lookup_outcome(loads, id, second),
    ensures
        first is Ok <==> second is Ok,
        first is Ok ==> first->Ok_0 == second->Ok_0,
        first is Err ==> first->Err_0.kind() == second->Err_0.kind() && first->Err_0.detail()
            == second->Err_0.detail(),
{
}

} // verus!
