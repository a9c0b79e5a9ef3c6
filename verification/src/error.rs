//! The error taxonomy of the transition engine.

use vstd::prelude::*;
use crate::state::Identity;

verus! {

/// Why an attached payment was rejected.
///
/// The variants mirror the payment checker of the host ecosystem one for
/// one; only the first three can come out of the single-denomination check
/// that `Donate` performs.
#[derive(Debug)]
pub enum PaymentFault {
    /// Exactly one coin came attached, but of the wrong denomination; the
    /// field names the denomination that was required.
    MissingDenom(String),
    /// A coin of an unsupported denomination came attached.
    ExtraDenom(String),
    /// More than one coin came attached.
    MultipleDenoms,
    /// Nothing came attached, or the single attached coin had amount zero.
    NoFunds,
    /// Funds came attached to an instruction that accepts none.
    NonPayable,
}

/// Every way an instruction can abort. Each abort is atomic: the store is
/// left exactly as it was.
#[derive(Debug)]
pub enum ContractError {
    /// A supplied address string failed the host's address validation; the
    /// field carries the validator's message.
    Validation { message: String },
    /// A non-admin tried a mutation that only admins may perform.
    Unauthorized { sender: Identity },
    /// The attached payment was rejected.
    Payment { fault: PaymentFault },
    /// The donation split would divide by zero admins.
    Arithmetic,
    /// A storage key was read before anything was written under it.
    Storage,
}

} // verus!
