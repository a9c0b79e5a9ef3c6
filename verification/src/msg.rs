//! The typed instructions and queries of the contract, and the answers the
//! query dispatcher returns. Wire (de)serialization is the host's work;
//! the library only sees these typed values.

use vstd::prelude::*;
use crate::state::Identity;

verus! {

/// The one-time setup message: the raw admin address strings and the only
/// denomination that `Donate` will accept.
#[derive(Debug)]
pub struct InstantiateMessage {
    pub admins: Vec<String>,
    pub donation_denom: String,
}

/// The instructions of the execution dispatcher.
#[derive(Debug)]
pub enum ExcuteMsg {
    /// Append further admins; only a current admin may do this.
    AddMembers { admins: Vec<String> },
    /// Remove every occurrence of the caller from the admin sequence.
    Leave {},
    /// Split the attached payment evenly across the current admins.
    Donate {},
    /// Present in the instruction schema, but no transition is defined for
    /// it: the dispatcher leaves the state unchanged and answers with an
    /// empty response.
    Increment {},
}

/// The read-only requests of the query dispatcher.
#[derive(Debug)]
pub enum QueryMsg {
    Greet {},
    AdminsList {},
    Count {},
}

/// Answer to `Greet`.
#[derive(Debug)]
pub struct GreetResp {
    pub message: String,
}

/// Answer to `AdminsList`: the persisted admin sequence, in order.
#[derive(Debug)]
pub struct AdminsListResp {
    pub admins: Vec<Identity>,
}

/// Answer to `Count`: the persisted counter, which no instruction writes.
#[derive(Debug)]
pub struct CountResp {
    pub value: u128,
}

/// The answer of the query dispatcher, one variant per request; it stands
/// in for the serialized payload that the host would record.
#[derive(Debug)]
pub enum QueryResp {
    Greet(GreetResp),
    AdminsList(AdminsListResp),
    Count(CountResp),
}

} // verus!
