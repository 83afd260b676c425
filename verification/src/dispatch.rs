//! Dispatch: deciding whether a driver and equipment may take a load, and
//! binding them to it.

use crate::error::{not_found_text, ApiError, ErrorKind};
use crate::loads::{assigned, loads_replaced, LoadRepository};
use crate::model::{
    AssignDriverRequest, Driver, EmploymentStatus, Equipment, Load, Timestamp,
};
use crate::state::{contains_id, position, AppState};
use vstd::prelude::*;
use vstd::string::StringExecFns;

verus! {

/// Why a driver and equipment may not take a load.
#[derive(Clone, Copy, Debug, PartialEq, Eq, Structural)]
pub enum Ineligibility {
    /// The driver works for another company than the load's.
    DriverOtherCompany,
    /// The truck belongs to another company than the load's.
    TruckOtherCompany,
    /// The trailer belongs to another company than the load's.
    TrailerOtherCompany,
    /// The driver is not actively employed.
    DriverNotEmployed,
    /// The driver is neither available nor off duty.
    DriverNotAvailable,
}

/// Whether a driver and equipment may take a load.
#[derive(Clone, Copy, Debug, PartialEq, Eq, Structural)]
pub enum Eligibility {
    Eligible,
    Ineligible(Ineligibility),
}

impl Ineligibility {
    /// A resource of another company is bad input; a driver who cannot take
    /// the load is a request that is not allowed.
    pub open spec fn kind(self) -> ErrorKind {
        match self {
            Ineligibility::DriverOtherCompany => ErrorKind::Validation,
            Ineligibility::TruckOtherCompany => ErrorKind::Validation,
            Ineligibility::TrailerOtherCompany => ErrorKind::Validation,
            Ineligibility::DriverNotEmployed => ErrorKind::BusinessLogic,
            Ineligibility::DriverNotAvailable => ErrorKind::BusinessLogic,
        }
    }

    /// The reason in words.
    pub open spec fn text(self) -> Seq<char> {
        match self {
            Ineligibility::DriverOtherCompany => "driver belongs to another company"@,
            Ineligibility::TruckOtherCompany => "truck belongs to another company"@,
            Ineligibility::TrailerOtherCompany => "trailer belongs to another company"@,
            Ineligibility::DriverNotEmployed => "driver is not actively employed"@,
            Ineligibility::DriverNotAvailable => "driver is not available for assignment"@,
        }
    }

    /// The error that reports the reason.
    pub fn to_error(self) -> (e: ApiError)
        ensures
            e.kind() == self.kind(),
            e.detail() == self.text(),
    {
        match self {
            Ineligibility::DriverOtherCompany => ApiError::ValidationError(
                String::from_str("driver belongs to another company"),
            ),
            Ineligibility::TruckOtherCompany => ApiError::ValidationError(
                String::from_str("truck belongs to another company"),
            ),
            Ineligibility::TrailerOtherCompany => ApiError::ValidationError(
                String::from_str("trailer belongs to another company"),
            ),
            Ineligibility::DriverNotEmployed => ApiError::BusinessLogicError(
                String::from_str("driver is not actively employed"),
            ),
            Ineligibility::DriverNotAvailable => ApiError::BusinessLogicError(
                String::from_str("driver is not available for assignment"),
            ),
        }
    }
}

/// The rule of assignment. The driver, the truck and the trailer, if there
/// is one, must belong to the load's company; the driver must be actively
/// employed, and available or off duty. The first rule that fails, in this
/// order, is the reason.
pub open spec fn eligibility(
    driver: Driver,
    truck: Equipment,
    trailer: Option<Equipment>,
    load: Load,
) -> Eligibility {
    if driver.company_id != load.company_id {
        Eligibility::Ineligible(Ineligibility::DriverOtherCompany)
    } else if truck.company_id != load.company_id {
        Eligibility::Ineligible(Ineligibility::TruckOtherCompany)
    } else if trailer is Some && trailer->0.company_id != load.company_id {
        Eligibility::Ineligible(Ineligibility::TrailerOtherCompany)
    } else if driver.employment_status != EmploymentStatus::Active {
        Eligibility::Ineligible(Ineligibility::DriverNotEmployed)
    } else if !driver.current_status.assignable() {
        Eligibility::Ineligible(Ineligibility::DriverNotAvailable)
    } else {
        Eligibility::Eligible
    }
}

/// Decides whether the driver, the truck and the trailer, if there is one,
/// may take the load. Nothing is written.
pub fn check_eligibility(
    driver: &Driver,
    truck: &Equipment,
    trailer: Option<Equipment>,
    load: &Load,
) -> (r: Eligibility)
    ensures
        r == eligibility(*driver, *truck, trailer, *load),
{
    if driver.company_id != load.company_id {
        return Eligibility::Ineligible(Ineligibility::DriverOtherCompany);
    }
    if truck.company_id != load.company_id {
        return Eligibility::Ineligible(Ineligibility::TruckOtherCompany);
    }
    match trailer {
        Some(t) => {
            if t.company_id != load.company_id {
                return Eligibility::Ineligible(Ineligibility::TrailerOtherCompany);
            }
        },
        None => {},
    }
    if driver.employment_status != EmploymentStatus::Active {
        return Eligibility::Ineligible(Ineligibility::DriverNotEmployed);
    }
    if !driver.current_status.is_assignable() {
        return Eligibility::Ineligible(Ineligibility::DriverNotAvailable);
    }
    Eligibility::Eligible
}

/// The trailer row that a request names, if it names one.
pub open spec fn trailer_row(state: AppState, trailer_id: Option<u128>) -> Option<Equipment> {
    match trailer_id {
        Some(t) => Some(state.trailers@[position(state.trailers@, t)]),
        None => None,
    }
}

/// Why an assignment is refused, if it is: the kind of the error and its
/// text. The load, the driver, the truck and the trailer are looked up in
/// this order, and the first one that is missing is reported; then the rule
/// of assignment decides.
pub open spec fn assignment_refusal(state: AppState, load_id: u128, req: AssignDriverRequest) -> Option<
    (ErrorKind, Seq<char>),
> {
    if !contains_id(state.loads@, load_id) {
        Some((ErrorKind::NotFound, not_found_text("Load"@, load_id)))
    } else if !contains_id(state.drivers@, req.driver_id) {
        Some((ErrorKind::NotFound, not_found_text("Driver"@, req.driver_id)))
    } else if !contains_id(state.trucks@, req.truck_id) {
        Some((ErrorKind::NotFound, not_found_text("Truck"@, req.truck_id)))
    } else if req.trailer_id is Some && !contains_id(state.trailers@, req.trailer_id->0) {
        Some((ErrorKind::NotFound, not_found_text("Trailer"@, req.trailer_id->0)))
    } else {
        match eligibility(
            state.drivers@[position(state.drivers@, req.driver_id)],
            state.trucks@[position(state.trucks@, req.truck_id)],
            trailer_row(state, req.trailer_id),
            state.loads@[position(state.loads@, load_id)],
        ) {
            Eligibility::Eligible => None,
            Eligibility::Ineligible(reason) => Some((reason.kind(), reason.text())),
        }
    }
}

/// Binds the driver, the truck and the trailer of the request to the load
/// and dispatches it, provided that all of them exist and that the rule of
/// assignment allows it. A refused assignment writes nothing. A granted one
/// replaces whatever was bound to the load before, whatever its status was.
pub fn assign_driver_to_load(
    state: &mut AppState,
    load_id: u128,
    req: AssignDriverRequest,
    now: Timestamp,
) -> (r: Result<Load, ApiError>)
    ensures
        match assignment_refusal(*old(state), load_id, req) {
            Some((kind, text)) => {
                &&& r matches Err(e) && e.kind() == kind && e.detail() == text
                &&& *final(state) == *old(state)
            },
            None => {
                let i = position(old(state).loads@, load_id);
                let row = assigned(
                    old(state).loads@[i],
                    req.driver_id,
                    req.truck_id,
                    req.trailer_id,
                    now,
                );
                r == Ok::<Load, ApiError>(row) && loads_replaced(*old(state), *final(state), i, row)
            },
        },
        old(state).wf() ==> final(state).wf(),
{
    LoadRepository::assign_driver(
        state,
        load_id,
        req.driver_id,
        req.truck_id,
        req.trailer_id,
        now,
    )
}

} // verus!
