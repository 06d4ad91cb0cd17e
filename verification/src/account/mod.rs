//! TMF666 Account Management values.
pub mod model;

pub use model::{Account, AccountBalance, AccountKind};
