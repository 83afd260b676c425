use chrono::{Datelike, NaiveDate};
use openhwy_tms::{
    assign_driver_to_load, check_eligibility, ApiError, AppState, AssignDriverRequest,
    CreateDriverRequest, CreateLoadRequest, Customer, Date, Driver, DriverRepository,
    DriverStatus, Eligibility, EmploymentStatus, Equipment, Ineligibility, Load, LoadRepository,
    LoadStatus, Timestamp,
};

const C: u128 = 0xC0;
const OTHER: u128 = 0xC1;
const L1: u128 = 0x11;
const D1: u128 = 0xD1;
const D2: u128 = 0xD2;
const T1: u128 = 0x71;
const T2: u128 = 0x72;
const R1: u128 = 0x81;
const R2: u128 = 0x82;

fn day(y: i32, m: u32, d: u32) -> Date {
    Date { days: NaiveDate::from_ymd_opt(y, m, d).unwrap().num_days_from_ce() }
}

fn at(seconds: i64) -> Timestamp {
    Timestamp { seconds }
}

fn hire(first: &str) -> CreateDriverRequest {
    CreateDriverRequest {
        first_name: first.to_string(),
        last_name: "Driver".to_string(),
        phone: "555-0100".to_string(),
        email: None,
        cdl_number: "CDL".to_string(),
        cdl_state: "TX".to_string(),
        cdl_class: "A".to_string(),
        cdl_expiry: day(2030, 1, 1),
        hire_date: Some(day(2020, 1, 1)),
        pay_type: "per_mile".to_string(),
        pay_rate: 65,
    }
}

fn world() -> AppState {
    let mut s = AppState::new();
    for (id, company) in [(0xA0, C), (0xA1, OTHER)] {
        s.customers.push(Customer {
            id,
            company_id: company,
            customer_name: "Acme".to_string(),
            customer_type: "shipper".to_string(),
            email: None,
            phone: None,
            payment_terms: 30,
            credit_limit: None,
            status: "active".to_string(),
            created_at: at(0),
            updated_at: at(0),
        });
    }
    s.trucks.push(Equipment { id: T1, company_id: C });
    s.trucks.push(Equipment { id: T2, company_id: OTHER });
    s.trailers.push(Equipment { id: R1, company_id: C });
    s.trailers.push(Equipment { id: R2, company_id: OTHER });
    DriverRepository::create(&mut s, D1, at(1), C, hire("One")).unwrap();
    DriverRepository::create(&mut s, D2, at(1), OTHER, hire("Two")).unwrap();
    s.drivers[0].current_status = DriverStatus::Available;
    let req = CreateLoadRequest {
        load_number: "L1".to_string(),
        reference_number: None,
        load_type: "full_truckload".to_string(),
        customer_id: 0xA0,
        equipment_type: "dry_van".to_string(),
        pickup_date: day(2024, 1, 1),
        delivery_date: day(2024, 1, 5),
        total_weight_lbs: None,
        commodity_description: Some("paper".to_string()),
    };
    LoadRepository::create(&mut s, L1, at(2), C, req).unwrap();
    s
}

fn ask(driver_id: u128, truck_id: u128, trailer_id: Option<u128>) -> AssignDriverRequest {
    AssignDriverRequest { driver_id, truck_id, trailer_id }
}

fn driver(s: &AppState) -> Driver {
    DriverRepository::find_by_id(s, D1).unwrap()
}

fn load(s: &AppState) -> Load {
    LoadRepository::find_by_id(s, L1).unwrap()
}

fn truck() -> Equipment {
    Equipment { id: T1, company_id: C }
}

#[test]
fn pending_load_is_dispatched_to_an_available_driver() {
    let mut s = world();
    let before = load(&s);
    assert_eq!(before.status, LoadStatus::Pending);
    assert_eq!(before.pickup_date, day(2024, 1, 1));
    assert_eq!(before.delivery_date, day(2024, 1, 5));
    let l = assign_driver_to_load(&mut s, L1, ask(D1, T1, None), at(500)).unwrap();
    assert_eq!(l.status, LoadStatus::Dispatched);
    assert_eq!(l.driver_id, Some(D1));
    assert_eq!(l.truck_id, Some(T1));
    assert_eq!(l.trailer_id, None);
    assert_eq!(l.updated_at, at(500));
    assert_eq!(l.created_at, before.created_at);
    assert_eq!(l.commodity_description, Some("paper".to_string()));
    assert_eq!(load(&s), l);
    assert!(s.is_valid());
}

#[test]
fn assignment_takes_a_trailer_along() {
    let mut s = world();
    let l = assign_driver_to_load(&mut s, L1, ask(D1, T1, Some(R1)), at(500)).unwrap();
    assert_eq!(l.trailer_id, Some(R1));
    assert_eq!(l.status, LoadStatus::Dispatched);
}

#[test]
fn assignment_accepts_an_off_duty_driver() {
    let mut s = world();
    s.drivers[0].current_status = DriverStatus::OffDuty;
    assert!(assign_driver_to_load(&mut s, L1, ask(D1, T1, None), at(500)).is_ok());
}

#[test]
fn assignment_to_a_missing_load_is_not_found() {
    let mut s = world();
    let before = load(&s);
    let r = assign_driver_to_load(&mut s, 0x12, ask(D1, T1, None), at(500));
    assert_eq!(
        r,
        Err(ApiError::NotFound(
            "Load with id 00000000-0000-0000-0000-000000000012 not found".to_string()
        ))
    );
    assert_eq!(load(&s), before);
    assert_eq!(s.loads.len(), 1);
}

#[test]
fn assignment_of_a_missing_driver_truck_or_trailer_is_not_found() {
    let mut s = world();
    let before = load(&s);
    assert_eq!(
        assign_driver_to_load(&mut s, L1, ask(0xDD, T1, None), at(500)),
        Err(ApiError::NotFound(
            "Driver with id 00000000-0000-0000-0000-0000000000dd not found".to_string()
        ))
    );
    assert_eq!(
        assign_driver_to_load(&mut s, L1, ask(D1, 0x7F, None), at(500)),
        Err(ApiError::NotFound(
            "Truck with id 00000000-0000-0000-0000-00000000007f not found".to_string()
        ))
    );
    assert_eq!(
        assign_driver_to_load(&mut s, L1, ask(D1, T1, Some(0x8F)), at(500)),
        Err(ApiError::NotFound(
            "Trailer with id 00000000-0000-0000-0000-00000000008f not found".to_string()
        ))
    );
    assert_eq!(load(&s), before);
}

#[test]
fn assignment_of_an_inactive_driver_is_refused() {
    let mut s = world();
    s.drivers[0].employment_status = EmploymentStatus::Inactive;
    let before = load(&s);
    for status in [
        DriverStatus::Available,
        DriverStatus::OffDuty,
        DriverStatus::Driving,
        DriverStatus::Other("on_duty".to_string()),
    ] {
        s.drivers[0].current_status = status;
        assert_eq!(
            assign_driver_to_load(&mut s, L1, ask(D1, T1, None), at(500)),
            Err(ApiError::BusinessLogicError("driver is not actively employed".to_string()))
        );
    }
    assert_eq!(load(&s), before);
}

#[test]
fn assignment_of_a_busy_driver_is_refused() {
    let mut s = world();
    s.drivers[0].current_status = DriverStatus::Driving;
    let before = load(&s);
    assert_eq!(
        assign_driver_to_load(&mut s, L1, ask(D1, T1, Some(R1)), at(500)),
        Err(ApiError::BusinessLogicError("driver is not available for assignment".to_string()))
    );
    assert_eq!(load(&s), before);
}

#[test]
fn assignment_across_companies_is_refused() {
    let mut s = world();
    let before = load(&s);
    assert_eq!(
        assign_driver_to_load(&mut s, L1, ask(D2, T1, None), at(500)),
        Err(ApiError::ValidationError("driver belongs to another company".to_string()))
    );
    assert_eq!(
        assign_driver_to_load(&mut s, L1, ask(D1, T2, None), at(500)),
        Err(ApiError::ValidationError("truck belongs to another company".to_string()))
    );
    assert_eq!(
        assign_driver_to_load(&mut s, L1, ask(D1, T1, Some(R2)), at(500)),
        Err(ApiError::ValidationError("trailer belongs to another company".to_string()))
    );
    assert_eq!(load(&s), before);
}

#[test]
fn reassignment_replaces_the_resources() {
    let mut s = world();
    DriverRepository::create(&mut s, 0xD3, at(1), C, hire("Three")).unwrap();
    s.trucks.push(Equipment { id: 0x73, company_id: C });
    assign_driver_to_load(&mut s, L1, ask(D1, T1, Some(R1)), at(500)).unwrap();
    LoadRepository::update_status(&mut s, L1, LoadStatus::InTransit, at(600)).unwrap();
    let l = assign_driver_to_load(&mut s, L1, ask(0xD3, 0x73, None), at(700)).unwrap();
    assert_eq!(l.status, LoadStatus::Dispatched);
    assert_eq!(l.driver_id, Some(0xD3));
    assert_eq!(l.truck_id, Some(0x73));
    assert_eq!(l.trailer_id, None);
    assert_eq!(l.updated_at, at(700));
}

#[test]
fn eligibility_names_the_first_rule_that_fails() {
    let s = world();
    let l = load(&s);
    let mut d = driver(&s);
    assert_eq!(check_eligibility(&d, &truck(), None, &l), Eligibility::Eligible);
    assert_eq!(
        check_eligibility(&d, &truck(), Some(Equipment { id: R1, company_id: C }), &l),
        Eligibility::Eligible
    );
    d.current_status = DriverStatus::Driving;
    assert_eq!(
        check_eligibility(&d, &truck(), None, &l),
        Eligibility::Ineligible(Ineligibility::DriverNotAvailable)
    );
    d.employment_status = EmploymentStatus::Inactive;
    assert_eq!(
        check_eligibility(&d, &truck(), None, &l),
        Eligibility::Ineligible(Ineligibility::DriverNotEmployed)
    );
    assert_eq!(
        check_eligibility(&d, &truck(), Some(Equipment { id: R2, company_id: OTHER }), &l),
        Eligibility::Ineligible(Ineligibility::TrailerOtherCompany)
    );
    assert_eq!(
        check_eligibility(&d, &Equipment { id: T2, company_id: OTHER }, None, &l),
        Eligibility::Ineligible(Ineligibility::TruckOtherCompany)
    );
    d.company_id = OTHER;
    assert_eq!(
        check_eligibility(&d, &Equipment { id: T2, company_id: OTHER }, None, &l),
        Eligibility::Ineligible(Ineligibility::DriverOtherCompany)
    );
}

#[test]
fn inactive_driver_is_ineligible_whatever_the_status() {
    let s = world();
    let l = load(&s);
    let mut d = driver(&s);
    d.employment_status = EmploymentStatus::Inactive;
    for status in [
        DriverStatus::Available,
        DriverStatus::OffDuty,
        DriverStatus::Driving,
        DriverStatus::Other("on_duty".to_string()),
    ] {
        d.current_status = status;
        assert_eq!(
            check_eligibility(&d, &truck(), None, &l),
            Eligibility::Ineligible(Ineligibility::DriverNotEmployed)
        );
    }
}

#[test]
fn reasons_become_errors() {
    assert_eq!(
        Ineligibility::DriverOtherCompany.to_error(),
        ApiError::ValidationError("driver belongs to another company".to_string())
    );
    assert_eq!(
        Ineligibility::TruckOtherCompany.to_error(),
        ApiError::ValidationError("truck belongs to another company".to_string())
    );
    assert_eq!(
        Ineligibility::TrailerOtherCompany.to_error(),
        ApiError::ValidationError("trailer belongs to another company".to_string())
    );
    assert_eq!(
        Ineligibility::DriverNotEmployed.to_error(),
        ApiError::BusinessLogicError("driver is not actively employed".to_string())
    );
    assert_eq!(
        Ineligibility::DriverNotAvailable.to_error(),
        ApiError::BusinessLogicError("driver is not available for assignment".to_string())
    );
}
