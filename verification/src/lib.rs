//! Load dispatch and assignment engine for a freight transport management
//! system: the load lifecycle, the rules for binding drivers and equipment to
//! loads, and the financial roll-up of finished loads.
//!
//! Identifiers are 128-bit values, calendar dates are day numbers, instants
//! are seconds since the Unix epoch and money is counted in cents, so that
//! every rule is stated over integers. The engine works on tables held in
//! memory ([`AppState`]); whoever owns the database reads rows into them and
//! writes back what an operation returns.
//!
//! - [`model`]: the records and their statuses.
//! - [`state`]: the tables, and how a row is found by its identifier.
//! - [`loads`]: opening a load, changing its status, binding resources to
//!   it, listing active loads, and the financial summary.
//! - [`drivers`]: registering, finding and listing drivers, and recording
//!   where one is.
//! - [`dispatch`]: the rule of assignment, and assignment under that rule.
//! - [`error`]: the failures, and what a caller is told about them.
//! - [`ident`], [`names`]: identifiers as text, and the order of names.
//! - [`laws`]: what holds of the operations taken together.

pub mod dispatch;
pub mod drivers;
pub mod error;
pub mod ident;
pub mod laws;
pub mod loads;
pub mod model;
pub mod names;
pub mod state;

pub use dispatch::{assign_driver_to_load, check_eligibility, Eligibility, Ineligibility};
pub use drivers::DriverRepository;
pub use error::{ApiError, ErrorBody, ErrorKind};
pub use loads::LoadRepository;
pub use model::{
    AssignDriverRequest, CreateDriverRequest, CreateLoadRequest, Customer, Date, Driver,
    DriverStatus, EmploymentStatus, Equipment, FinancialSummary, GeoPoint, Invoice, Load,
    LoadStatus, Timestamp, UpdateDriverLocationRequest, UpdateLoadRequest,
};
pub use state::{AppState, Record};
