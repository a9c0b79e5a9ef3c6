//! State-transition core of an admin-managed donation contract.
//!
//! The library holds the verified logic: the persisted state model, the
//! instruction and query types, the dispatchers, the authorization rule
//! and the donation-split arithmetic. The hosting runtime, storage commit
//! and wire formats live outside it.

pub mod contract;
pub mod error;
pub mod laws;
pub mod msg;
pub mod numeral;
pub mod payment;
pub mod response;
pub mod state;

pub use contract::execute;
pub use contract::instantiate;
pub use contract::query;
