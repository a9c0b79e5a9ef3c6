//! Persisted state of the contract and the value types it stores.

use vstd::prelude::*;
use crate::error::ContractError;

verus! {

/// A validated external account reference in its canonical string form.
///
/// Address validation itself is an opaque capability of the hosting runtime;
/// the library only carries the canonical text that the capability handed
/// back, and compares identities by that text.
#[derive(Debug)]
pub struct Identity {
    pub addr: String,
}

impl View for Identity {
    type V = Seq<char>;

    open spec fn view(&self) -> Seq<char> {
        self.addr@
    }
}

impl DeepView for Identity {
    type V = Seq<char>;

    open spec fn deep_view(&self) -> Seq<char> {
        self@
    }
}

impl Identity {
    pub fn new(addr: String) -> (r: Identity)
        ensures
            r@ == addr@,
    {
        Identity { addr }
    }

    /// A fresh copy holding the same canonical text.
    pub fn duplicate(&self) -> (r: Identity)
        ensures
            r@ == self@,
    {
        Identity { addr: self.addr.clone() }
    }

    /// Identity equality: same canonical text.
    pub fn same_as(&self, other: &Identity) -> (r: bool)
        ensures
            r == (self@ == other@),
    {
        self.addr == other.addr
    }
}

/// The spec-level value of a [`Coin`]: its denomination text and amount.
#[verifier::ext_equal]
pub struct CoinV {
    pub denom: Seq<char>,
    pub amount: u128,
}

/// A quantity of a single denomination, as attached to an instruction.
#[derive(Debug)]
pub struct Coin {
    pub denom: String,
    pub amount: u128,
}

impl View for Coin {
    type V = CoinV;

    open spec fn view(&self) -> CoinV {
        CoinV { denom: self.denom@, amount: self.amount }
    }
}

impl DeepView for Coin {
    type V = CoinV;

    open spec fn deep_view(&self) -> CoinV {
        self@
    }
}

/// Who sent the current instruction and what funds came attached to it.
#[derive(Debug)]
pub struct MessageInfo {
    pub sender: Identity,
    pub funds: Vec<Coin>,
}

/// The contract's persisted key-value state, one slot per storage key.
///
/// A slot holds `None` until the key has been written. Loading an unwritten
/// key is the storage failure of the error taxonomy; the host owns commit
/// and rollback, so the library only ever sees a store inside one
/// instruction's transaction scope.
pub struct Store {
    admins: Option<Vec<Identity>>,
    donation_denom: Option<String>,
    count: Option<u128>,
}

impl Store {
    /// The admin sequence under its key, each admin as its canonical text.
    pub closed spec fn spec_admins(&self) -> Option<Seq<Seq<char>>> {
        match self.admins {
            Some(v) => Some(v.deep_view()),
            None => None,
        }
    }

    /// The accepted donation denomination under its key.
    pub closed spec fn spec_denom(&self) -> Option<Seq<char>> {
        match self.donation_denom {
            Some(d) => Some(d@),
            None => None,
        }
    }

    /// The counter under its key; no instruction ever writes it.
    pub closed spec fn spec_count(&self) -> Option<u128> {
        self.count
    }

    /// An empty store, as the host presents it before instantiation.
    pub fn new() -> (r: Store)
        ensures
            r.spec_admins() is None,
            r.spec_denom() is None,
            r.spec_count() is None,
    {
        Store { admins: None, donation_denom: None, count: None }
    }

    pub fn load_admins(&self) -> (r: Result<&Vec<Identity>, ContractError>)
        ensures
            match r {
                Ok(v) => self.spec_admins() == Some(v.deep_view()),
                Err(e) => self.spec_admins() is None && e == ContractError::Storage,
            },
    {
        match &self.admins {
            Some(v) => Ok(v),
            None => Err(ContractError::Storage),
        }
    }

    pub fn save_admins(&mut self, v: Vec<Identity>)
        ensures
            final(self).spec_admins() == Some(v.deep_view()),
            final(self).spec_denom() == old(self).spec_denom(),
            final(self).spec_count() == old(self).spec_count(),
    {
        self.admins = Some(v);
    }

    pub fn load_denom(&self) -> (r: Result<&String, ContractError>)
        ensures
            match r {
                Ok(d) => self.spec_denom() == Some(d@),
                Err(e) => self.spec_denom() is None && e == ContractError::Storage,
            },
    {
        match &self.donation_denom {
            Some(d) => Ok(d),
            None => Err(ContractError::Storage),
        }
    }

    pub fn save_denom(&mut self, d: String)
        ensures
            final(self).spec_denom() == Some(d@),
            final(self).spec_admins() == old(self).spec_admins(),
            final(self).spec_count() == old(self).spec_count(),
    {
        self.donation_denom = Some(d);
    }

    pub fn load_count(&self) -> (r: Result<u128, ContractError>)
        ensures
            match r {
                Ok(n) => self.spec_count() == Some(n),
                Err(e) => self.spec_count() is None && e == ContractError::Storage,
            },
    {
        match self.count {
            Some(n) => Ok(n),
            None => Err(ContractError::Storage),
        }
    }
}

} // verus!
