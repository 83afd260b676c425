//! The records the engine works on.

use vstd::prelude::*;
use vstd::string::StringExecFns;

verus! {

/// A calendar date, held as the number of days since 0001-01-01 (day 1).
#[derive(Clone, Copy, Debug, PartialEq, Eq, Structural)]
pub struct Date {
    pub days: i32,
}

/// An instant in UTC, held as seconds since the Unix epoch.
#[derive(Clone, Copy, Debug, PartialEq, Eq, Structural)]
pub struct Timestamp {
    pub seconds: i64,
}

/// A position on the globe in millionths of a degree.
#[derive(Clone, Copy, Debug, PartialEq, Eq, Structural)]
pub struct GeoPoint {
    pub longitude: i32,
    pub latitude: i32,
}

/// Where a load stands in its life.
#[derive(Clone, Copy, Debug, PartialEq, Eq, Structural)]
pub enum LoadStatus {
    Pending,
    Dispatched,
    InTransit,
    Delivered,
    Completed,
    Cancelled,
}

/// Whether a driver is on the payroll.
#[derive(Clone, Copy, Debug, PartialEq, Eq, Structural)]
pub enum EmploymentStatus {
    Active,
    Inactive,
}

/// What a driver is doing right now. A status is known by its name; the
/// three that the engine speaks of have a variant of their own, and any
/// other is carried as the text it was given as.
#[derive(Debug, PartialEq, Eq)]
pub enum DriverStatus {
    Available,
    OffDuty,
    Driving,
    Other(String),
}

impl LoadStatus {
    /// Delivered, completed and cancelled loads are finished for dispatch.
    pub open spec fn terminal(self) -> bool {
        self == LoadStatus::Delivered || self == LoadStatus::Completed || self
            == LoadStatus::Cancelled
    }

    /// Delivered and completed loads count towards the financial summary.
    pub open spec fn billable(self) -> bool {
        self == LoadStatus::Delivered || self == LoadStatus::Completed
    }

    pub fn is_terminal(self) -> (r: bool)
        ensures
            r == self.terminal(),
    {
        match self {
            LoadStatus::Delivered | LoadStatus::Completed | LoadStatus::Cancelled => true,
            _ => false,
        }
    }

    pub fn is_billable(self) -> (r: bool)
        ensures
            r == self.billable(),
    {
        match self {
            LoadStatus::Delivered | LoadStatus::Completed => true,
            _ => false,
        }
    }
}

/// One shipment.
#[derive(Debug, PartialEq, Eq)]
pub struct Load {
    pub id: u128,
    pub company_id: u128,
    pub load_number: String,
    pub reference_number: Option<String>,
    pub bol_number: Option<String>,
    pub load_type: String,
    pub mode: String,
    pub customer_id: Option<u128>,
    pub carrier_id: Option<u128>,
    pub truck_id: Option<u128>,
    pub trailer_id: Option<u128>,
    pub driver_id: Option<u128>,
    pub equipment_type: Option<String>,
    pub total_weight_lbs: Option<i32>,
    pub total_pieces: Option<i32>,
    pub commodity_description: Option<String>,
    pub status: LoadStatus,
    pub pickup_date: Date,
    pub delivery_date: Date,
    /// Cents.
    pub customer_rate: Option<i64>,
    /// Cents.
    pub carrier_rate: Option<i64>,
    /// Cents.
    pub total_revenue: Option<i64>,
    /// Cents.
    pub total_cost: Option<i64>,
    /// Cents.
    pub profit_margin: Option<i64>,
    pub total_miles: Option<i32>,
    pub created_at: Timestamp,
    pub updated_at: Timestamp,
}

impl Load {
    /// What holds of every stored load: pickup is not after delivery, driver
    /// and truck are set together, and a trailer only rides with them.
    pub open spec fn wf(self) -> bool {
        &&& self.pickup_date.days <= self.delivery_date.days
        &&& (self.driver_id is Some <==> self.truck_id is Some)
        &&& (self.trailer_id is Some ==> self.driver_id is Some)
    }

    /// No driver, truck or trailer is bound to the load.
    pub open spec fn unassigned(self) -> bool {
        self.driver_id is None && self.truck_id is None && self.trailer_id is None
    }

    /// Tells whether the load keeps its invariant.
    pub fn is_wf(&self) -> (r: bool)
        ensures
            r == self.wf(),
    {
        self.pickup_date.days <= self.delivery_date.days && (self.driver_id.is_some()
            == self.truck_id.is_some()) && (self.trailer_id.is_none() || self.driver_id.is_some())
    }
}

impl Clone for Load {
    fn clone(&self) -> (r: Self)
        ensures
            r == *self,
    {
        Load {
            id: self.id,
            company_id: self.company_id,
            load_number: self.load_number.clone(),
            reference_number: self.reference_number.clone(),
            bol_number: self.bol_number.clone(),
            load_type: self.load_type.clone(),
            mode: self.mode.clone(),
            customer_id: self.customer_id,
            carrier_id: self.carrier_id,
            truck_id: self.truck_id,
            trailer_id: self.trailer_id,
            driver_id: self.driver_id,
            equipment_type: self.equipment_type.clone(),
            total_weight_lbs: self.total_weight_lbs,
            total_pieces: self.total_pieces,
            commodity_description: self.commodity_description.clone(),
            status: self.status,
            pickup_date: self.pickup_date,
            delivery_date: self.delivery_date,
            customer_rate: self.customer_rate,
            carrier_rate: self.carrier_rate,
            total_revenue: self.total_revenue,
            total_cost: self.total_cost,
            profit_margin: self.profit_margin,
            total_miles: self.total_miles,
            created_at: self.created_at,
            updated_at: self.updated_at,
        }
    }
}

impl DriverStatus {
    /// The name under which the status is stored and shown.
    pub open spec fn name(self) -> Seq<char> {
        match self {
            DriverStatus::Available => "available"@,
            DriverStatus::OffDuty => "off_duty"@,
            DriverStatus::Driving => "driving"@,
            DriverStatus::Other(text) => text@,
        }
    }

    /// A driver can take a new load while available or off duty. The name
    /// decides, however the status is held.
    pub open spec fn assignable(self) -> bool {
        self.name() == "available"@ || self.name() == "off_duty"@
    }

    /// Tells whether a driver of this status can take a new load.
    pub fn is_assignable(&self) -> (r: bool)
        ensures
            r == self.assignable(),
    {
        proof {
            reveal_strlit("available");
            reveal_strlit("off_duty");
            reveal_strlit("driving");
        }
        match self {
            DriverStatus::Available => true,
            DriverStatus::OffDuty => true,
            DriverStatus::Driving => {
                assert("driving"@.len() == 7 && "available"@.len() == 9 && "off_duty"@.len() == 8);
                false
            },
            DriverStatus::Other(text) => same_text(text.as_str(), "available") || same_text(
                text.as_str(),
                "off_duty",
            ),
        }
    }

    /// The name of the status.
    pub fn as_str(&self) -> (r: &str)
        ensures
            r@ == self.name(),
    {
        match self {
            DriverStatus::Available => "available",
            DriverStatus::OffDuty => "off_duty",
            DriverStatus::Driving => "driving",
            DriverStatus::Other(text) => text.as_str(),
        }
    }

    /// The status with the given name. Every name is a status: one of the
    /// three that the engine speaks of comes back as its own variant, any
    /// other as the text itself.
    pub fn parse(s: &str) -> (r: DriverStatus)
        ensures
            r.name() == s@,
            r is Available <==> s@ == "available"@,
            r is OffDuty <==> s@ == "off_duty"@,
            r is Driving <==> s@ == "driving"@,
    {
        proof {
            reveal_strlit("available");
            reveal_strlit("off_duty");
            reveal_strlit("driving");
            assert("driving"@.len() == 7 && "available"@.len() == 9 && "off_duty"@.len() == 8);
        }
        if same_text(s, "available") {
            DriverStatus::Available
        } else if same_text(s, "off_duty") {
            DriverStatus::OffDuty
        } else if same_text(s, "driving") {
            DriverStatus::Driving
        } else {
            DriverStatus::Other(String::from_str(s))
        }
    }
}

impl Clone for DriverStatus {
    fn clone(&self) -> (r: Self)
        ensures
            r == *self,
    {
        match self {
            DriverStatus::Available => DriverStatus::Available,
            DriverStatus::OffDuty => DriverStatus::OffDuty,
            DriverStatus::Driving => DriverStatus::Driving,
            DriverStatus::Other(text) => DriverStatus::Other(text.clone()),
        }
    }
}

/// What a caller supplies to open a load.
#[derive(Debug)]
pub struct CreateLoadRequest {
    pub load_number: String,
    pub reference_number: Option<String>,
    pub load_type: String,
    pub customer_id: u128,
    pub equipment_type: String,
    pub pickup_date: Date,
    pub delivery_date: Date,
    pub total_weight_lbs: Option<i32>,
    pub commodity_description: Option<String>,
}

/// Fields of a load that a caller may ask to change.
#[derive(Clone, Copy, Debug, PartialEq, Eq, Structural)]
pub struct UpdateLoadRequest {
    pub status: Option<LoadStatus>,
    pub driver_id: Option<u128>,
    pub truck_id: Option<u128>,
    pub trailer_id: Option<u128>,
    /// Cents.
    pub customer_rate: Option<i64>,
    /// Cents.
    pub carrier_rate: Option<i64>,
}

/// The resources to bind to a load.
#[derive(Clone, Copy, Debug, PartialEq, Eq, Structural)]
pub struct AssignDriverRequest {
    pub driver_id: u128,
    pub truck_id: u128,
    pub trailer_id: Option<u128>,
}

/// A truck or a trailer, as far as assignment needs to know it.
#[derive(Clone, Copy, Debug, PartialEq, Eq, Structural)]
pub struct Equipment {
    pub id: u128,
    pub company_id: u128,
}

/// One licensed operator.
#[derive(Debug, PartialEq, Eq)]
pub struct Driver {
    pub id: u128,
    pub company_id: u128,
    pub first_name: String,
    pub last_name: String,
    pub email: Option<String>,
    pub phone: String,
    pub cdl_number: String,
    pub cdl_state: Option<String>,
    pub cdl_class: Option<String>,
    pub cdl_expiry: Date,
    pub employment_status: EmploymentStatus,
    pub current_status: DriverStatus,
    pub total_miles: i64,
    pub total_loads: i32,
    /// Hundredths of a point.
    pub safety_score: Option<i32>,
    /// Hundredths of a percent.
    pub on_time_percentage: Option<i32>,
    pub current_location: Option<GeoPoint>,
    pub last_location_update: Option<Timestamp>,
    pub created_at: Timestamp,
    pub updated_at: Timestamp,
}

impl Driver {
    /// A driver may be given a new load only while employed and either
    /// available or off duty.
    pub open spec fn assignable(self) -> bool {
        self.employment_status == EmploymentStatus::Active && self.current_status.assignable()
    }

    pub fn is_assignable(&self) -> (r: bool)
        ensures
            r == self.assignable(),
    {
        self.employment_status == EmploymentStatus::Active && self.current_status.is_assignable()
    }
}

impl Clone for Driver {
    fn clone(&self) -> (r: Self)
        ensures
            r == *self,
    {
        Driver {
            id: self.id,
            company_id: self.company_id,
            first_name: self.first_name.clone(),
            last_name: self.last_name.clone(),
            email: self.email.clone(),
            phone: self.phone.clone(),
            cdl_number: self.cdl_number.clone(),
            cdl_state: self.cdl_state.clone(),
            cdl_class: self.cdl_class.clone(),
            cdl_expiry: self.cdl_expiry,
            employment_status: self.employment_status,
            current_status: self.current_status.clone(),
            total_miles: self.total_miles,
            total_loads: self.total_loads,
            safety_score: self.safety_score,
            on_time_percentage: self.on_time_percentage,
            current_location: self.current_location,
            last_location_update: self.last_location_update,
            created_at: self.created_at,
            updated_at: self.updated_at,
        }
    }
}

/// What a caller supplies to register a driver.
#[derive(Debug)]
pub struct CreateDriverRequest {
    pub first_name: String,
    pub last_name: String,
    pub phone: String,
    pub email: Option<String>,
    pub cdl_number: String,
    pub cdl_state: String,
    pub cdl_class: String,
    pub cdl_expiry: Date,
    pub hire_date: Option<Date>,
    pub pay_type: String,
    /// Cents.
    pub pay_rate: i64,
}

/// A position report from a driver.
#[derive(Debug, PartialEq, Eq)]
pub struct UpdateDriverLocationRequest {
    /// Millionths of a degree.
    pub latitude: i32,
    /// Millionths of a degree.
    pub longitude: i32,
    pub status: DriverStatus,
}

/// A billing or shipping counterpart.
#[derive(Debug)]
pub struct Customer {
    pub id: u128,
    pub company_id: u128,
    pub customer_name: String,
    pub customer_type: String,
    pub email: Option<String>,
    pub phone: Option<String>,
    pub payment_terms: i32,
    /// Cents.
    pub credit_limit: Option<i64>,
    pub status: String,
    pub created_at: Timestamp,
    pub updated_at: Timestamp,
}

/// A financial record, optionally tied to a load and a customer.
#[derive(Debug)]
pub struct Invoice {
    pub id: u128,
    pub company_id: u128,
    pub invoice_number: String,
    pub invoice_type: String,
    pub customer_id: Option<u128>,
    pub load_id: Option<u128>,
    /// Cents.
    pub total_amount: i64,
    /// Cents.
    pub amount_paid: i64,
    /// Cents.
    pub balance_due: i64,
    pub invoice_date: Date,
    pub due_date: Date,
    pub status: String,
    pub created_at: Timestamp,
}

/// Totals over a company's finished loads in a window of pickup dates.
#[derive(Clone, Copy, Debug, PartialEq, Eq, Structural)]
pub struct FinancialSummary {
    pub total_loads: u64,
    /// Cents.
    pub total_revenue: i128,
    /// Cents.
    pub total_cost: i128,
    /// Cents.
    pub total_profit: i128,
    pub total_miles: i128,
}

/// Tells whether two texts are the same.
fn same_text(a: &str, b: &str) -> (r: bool)
    ensures
        r == (a@ == b@),
{
    String::from_str(a) == String::from_str(b)
}

impl LoadStatus {
    /// The name under which the status is stored and shown.
    pub open spec fn name(self) -> Seq<char> {
        match self {
            LoadStatus::Pending => "pending"@,
            LoadStatus::Dispatched => "dispatched"@,
            LoadStatus::InTransit => "in_transit"@,
            LoadStatus::Delivered => "delivered"@,
            LoadStatus::Completed => "completed"@,
            LoadStatus::Cancelled => "cancelled"@,
        }
    }

    /// The name of the status.
    pub fn as_str(self) -> (r: &'static str)
        ensures
            r@ == self.name(),
    {
        match self {
            LoadStatus::Pending => "pending",
            LoadStatus::Dispatched => "dispatched",
            LoadStatus::InTransit => "in_transit",
            LoadStatus::Delivered => "delivered",
            LoadStatus::Completed => "completed",
            LoadStatus::Cancelled => "cancelled",
        }
    }

    /// The status with the given name, if the name is one of the six.
    pub fn parse(s: &str) -> (r: Option<LoadStatus>)
        ensures
            match r {
                Some(status) => status.name() == s@,
                None => forall|status: LoadStatus| status.name() != s@,
            },
    {
        if same_text(s, "pending") {
            Some(LoadStatus::Pending)
        } else if same_text(s, "dispatched") {
            Some(LoadStatus::Dispatched)
        } else if same_text(s, "in_transit") {
            Some(LoadStatus::InTransit)
        } else if same_text(s, "delivered") {
            Some(LoadStatus::Delivered)
        } else if same_text(s, "completed") {
            Some(LoadStatus::Completed)
        } else if same_text(s, "cancelled") {
            Some(LoadStatus::Cancelled)
        } else {
            None
        }
    }
}

impl EmploymentStatus {
    /// The name under which the status is stored and shown.
    pub open spec fn name(self) -> Seq<char> {
        match self {
            EmploymentStatus::Active => "active"@,
            EmploymentStatus::Inactive => "inactive"@,
        }
    }

    /// The name of the status.
    pub fn as_str(self) -> (r: &'static str)
        ensures
            r@ == self.name(),
    {
        match self {
            EmploymentStatus::Active => "active",
            EmploymentStatus::Inactive => "inactive",
        }
    }

    /// The status with the given name, if there is one.
    pub fn parse(s: &str) -> (r: Option<EmploymentStatus>)
        ensures
            match r {
                Some(status) => status.name() == s@,
                None => forall|status: EmploymentStatus| status.name() != s@,
            },
    {
        if same_text(s, "active") {
            Some(EmploymentStatus::Active)
        } else if same_text(s, "inactive") {
            Some(EmploymentStatus::Inactive)
        } else {
            None
        }
    }
}

} // verus!
