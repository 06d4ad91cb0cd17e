//! TMF678 Customer Bill Management values.
pub mod customer_bill;

pub use customer_bill::{CustomerBillOnDemandState, CustomerBillRunType, CustomerBillState};
