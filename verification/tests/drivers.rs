use openhwy_tms::{
    ApiError, AppState, CreateDriverRequest, Date, Driver, DriverRepository, DriverStatus,
    EmploymentStatus, GeoPoint, Timestamp, UpdateDriverLocationRequest,
};

const COMPANY: u128 = 0xC0;

fn at(seconds: i64) -> Timestamp {
    Timestamp { seconds }
}

fn hire(first: &str, last: &str) -> CreateDriverRequest {
    CreateDriverRequest {
        first_name: first.to_string(),
        last_name: last.to_string(),
        phone: "555-0100".to_string(),
        email: Some("driver@example.com".to_string()),
        cdl_number: "CDL123".to_string(),
        cdl_state: "TX".to_string(),
        cdl_class: "A".to_string(),
        cdl_expiry: Date { days: 740_000 },
        hire_date: None,
        pay_type: "per_mile".to_string(),
        pay_rate: 65,
    }
}

fn register(s: &mut AppState, id: u128, company: u128, first: &str, last: &str) -> Driver {
    DriverRepository::create(s, id, at(10), company, hire(first, last)).unwrap()
}

fn names(v: &[Driver]) -> Vec<String> {
    v.iter().map(|d| format!("{} {}", d.first_name, d.last_name)).collect()
}

#[test]
fn created_driver_is_active_and_off_duty() {
    let mut s = AppState::new();
    let d = DriverRepository::create(&mut s, 1, at(50), COMPANY, hire("Ann", "Lee")).unwrap();
    assert_eq!(d.id, 1);
    assert_eq!(d.company_id, COMPANY);
    assert_eq!(d.first_name, "Ann");
    assert_eq!(d.last_name, "Lee");
    assert_eq!(d.email, Some("driver@example.com".to_string()));
    assert_eq!(d.phone, "555-0100");
    assert_eq!(d.cdl_number, "CDL123");
    assert_eq!(d.cdl_state, Some("TX".to_string()));
    assert_eq!(d.cdl_class, Some("A".to_string()));
    assert_eq!(d.cdl_expiry, Date { days: 740_000 });
    assert_eq!(d.employment_status, EmploymentStatus::Active);
    assert_eq!(d.current_status, DriverStatus::OffDuty);
    assert_eq!(d.total_miles, 0);
    assert_eq!(d.total_loads, 0);
    assert_eq!(d.safety_score, None);
    assert_eq!(d.on_time_percentage, None);
    assert_eq!(d.current_location, None);
    assert_eq!(d.last_location_update, None);
    assert_eq!(d.created_at, at(50));
    assert_eq!(d.updated_at, at(50));
    assert_eq!(s.drivers.len(), 1);
    assert_eq!(s.drivers[0], d);
    assert!(s.is_valid());
}

#[test]
fn create_driver_rejects_identifier_in_use() {
    let mut s = AppState::new();
    register(&mut s, 1, COMPANY, "Ann", "Lee");
    let r = DriverRepository::create(&mut s, 1, at(60), COMPANY, hire("Bob", "Ray"));
    assert_eq!(
        r,
        Err(ApiError::ValidationError("a driver with this id already exists".to_string()))
    );
    assert_eq!(s.drivers.len(), 1);
    assert_eq!(s.drivers[0].first_name, "Ann");
}

#[test]
fn find_driver_by_id() {
    let mut s = AppState::new();
    let a = register(&mut s, 1, COMPANY, "Ann", "Lee");
    let b = register(&mut s, 2, COMPANY, "Bob", "Ray");
    assert_eq!(DriverRepository::find_by_id(&s, 2), Ok(b));
    assert_eq!(DriverRepository::find_by_id(&s, 1), Ok(a));
}

#[test]
fn find_driver_reports_a_missing_driver() {
    let s = AppState::new();
    assert_eq!(
        DriverRepository::find_by_id(&s, 0xABCDEF),
        Err(ApiError::NotFound(
            "Driver with id 00000000-0000-0000-0000-000000abcdef not found".to_string()
        ))
    );
}

#[test]
fn list_available_is_sorted_by_first_then_last_name() {
    let mut s = AppState::new();
    register(&mut s, 1, COMPANY, "Zed", "Adams");
    register(&mut s, 2, COMPANY, "Ann", "Young");
    register(&mut s, 3, COMPANY, "Ann", "Baker");
    register(&mut s, 4, COMPANY, "Anna", "Abel");
    register(&mut s, 5, COMPANY, "An", "Zane");
    register(&mut s, 6, COMPANY, "Ann", "");
    let v = DriverRepository::list_available(&s, COMPANY).unwrap();
    assert_eq!(
        names(&v),
        vec!["An Zane", "Ann ", "Ann Baker", "Ann Young", "Anna Abel", "Zed Adams"]
    );
}

#[test]
fn list_available_orders_names_by_code_point() {
    let mut s = AppState::new();
    register(&mut s, 1, COMPANY, "\u{e9}mile", "A");
    register(&mut s, 2, COMPANY, "Zoe", "A");
    register(&mut s, 3, COMPANY, "adam", "A");
    register(&mut s, 4, COMPANY, "\u{4e2d}", "A");
    let v = DriverRepository::list_available(&s, COMPANY).unwrap();
    let ids: Vec<u128> = v.iter().map(|d| d.id).collect();
    assert_eq!(ids, vec![2, 3, 1, 4]);
}

#[test]
fn list_available_keeps_only_assignable_drivers_of_the_company() {
    let mut s = AppState::new();
    register(&mut s, 1, COMPANY, "A", "A");
    register(&mut s, 2, COMPANY, "B", "B");
    register(&mut s, 3, COMPANY, "C", "C");
    register(&mut s, 4, COMPANY, "D", "D");
    register(&mut s, 5, COMPANY, "E", "E");
    register(&mut s, 6, 0xC1, "F", "F");
    s.drivers[0].current_status = DriverStatus::Available;
    s.drivers[1].current_status = DriverStatus::Driving;
    s.drivers[2].current_status = DriverStatus::Other("on_duty".to_string());
    s.drivers[3].employment_status = EmploymentStatus::Inactive;
    s.drivers[3].current_status = DriverStatus::Available;
    let v = DriverRepository::list_available(&s, COMPANY).unwrap();
    let ids: Vec<u128> = v.iter().map(|d| d.id).collect();
    assert_eq!(ids, vec![1, 5]);
    let other = DriverRepository::list_available(&s, 0xC1).unwrap();
    assert_eq!(other.len(), 1);
    assert_eq!(other[0].id, 6);
}

#[test]
fn update_location_overwrites_position_and_status() {
    let mut s = AppState::new();
    register(&mut s, 1, COMPANY, "Ann", "Lee");
    let untouched = register(&mut s, 2, COMPANY, "Bob", "Ray");
    let req = UpdateDriverLocationRequest {
        latitude: 32_776_700,
        longitude: -96_797_000,
        status: DriverStatus::Driving,
    };
    assert_eq!(DriverRepository::update_location(&mut s, 1, req, at(99)), Ok(()));
    let d = DriverRepository::find_by_id(&s, 1).unwrap();
    assert_eq!(
        d.current_location,
        Some(GeoPoint { longitude: -96_797_000, latitude: 32_776_700 })
    );
    assert_eq!(d.current_status, DriverStatus::Driving);
    assert_eq!(d.last_location_update, Some(at(99)));
    assert_eq!(d.first_name, "Ann");
    assert_eq!(d.updated_at, at(10));
    assert_eq!(s.drivers[1], untouched);
    let next = UpdateDriverLocationRequest { latitude: 1, longitude: 2, status: DriverStatus::Available };
    assert_eq!(DriverRepository::update_location(&mut s, 1, next, at(120)), Ok(()));
    let d = DriverRepository::find_by_id(&s, 1).unwrap();
    assert_eq!(d.current_location, Some(GeoPoint { longitude: 2, latitude: 1 }));
    assert_eq!(d.current_status, DriverStatus::Available);
    assert_eq!(d.last_location_update, Some(at(120)));
}

#[test]
fn update_location_of_a_missing_driver_is_not_found() {
    let mut s = AppState::new();
    let a = register(&mut s, 1, COMPANY, "Ann", "Lee");
    let req = UpdateDriverLocationRequest { latitude: 5, longitude: 6, status: DriverStatus::Driving };
    assert_eq!(
        DriverRepository::update_location(&mut s, 7, req, at(99)),
        Err(ApiError::NotFound(
            "Driver with id 00000000-0000-0000-0000-000000000007 not found".to_string()
        ))
    );
    assert_eq!(s.drivers.len(), 1);
    assert_eq!(s.drivers[0], a);
}

#[test]
fn update_location_keeps_a_status_it_has_no_rule_for() {
    let mut s = AppState::new();
    register(&mut s, 1, COMPANY, "Ann", "Lee");
    let req = UpdateDriverLocationRequest {
        latitude: 5,
        longitude: 6,
        status: DriverStatus::parse("sleeper_berth"),
    };
    assert_eq!(DriverRepository::update_location(&mut s, 1, req, at(99)), Ok(()));
    let d = DriverRepository::find_by_id(&s, 1).unwrap();
    assert_eq!(d.current_status, DriverStatus::Other("sleeper_berth".to_string()));
    assert_eq!(d.current_status.as_str(), "sleeper_berth");
    assert!(!d.is_assignable());
    assert!(DriverRepository::list_available(&s, COMPANY).unwrap().is_empty());
}

#[test]
fn assignable_needs_employment_and_availability() {
    let mut s = AppState::new();
    let mut d = register(&mut s, 1, COMPANY, "Ann", "Lee");
    assert!(d.is_assignable());
    d.current_status = DriverStatus::Available;
    assert!(d.is_assignable());
    d.current_status = DriverStatus::Driving;
    assert!(!d.is_assignable());
    d.current_status = DriverStatus::Other("on_duty".to_string());
    assert!(!d.is_assignable());
    d.current_status = DriverStatus::Other("off_duty".to_string());
    assert!(d.is_assignable());
    d.current_status = DriverStatus::Available;
    d.employment_status = EmploymentStatus::Inactive;
    assert!(!d.is_assignable());
}

#[test]
fn drivers_of_one_name_keep_the_order_of_the_table() {
    let mut s = AppState::new();
    register(&mut s, 9, COMPANY, "Sam", "Hill");
    register(&mut s, 3, COMPANY, "Al", "Hill");
    register(&mut s, 7, COMPANY, "Sam", "Hill");
    register(&mut s, 1, COMPANY, "Sam", "Hill");
    register(&mut s, 5, COMPANY, "Sam", "Abbot");
    let v = DriverRepository::list_available(&s, COMPANY).unwrap();
    let ids: Vec<u128> = v.iter().map(|d| d.id).collect();
    assert_eq!(ids, vec![3, 5, 9, 7, 1]);
}
