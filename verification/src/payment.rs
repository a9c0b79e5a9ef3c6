//! The funds check of `Donate`: exactly one attached coin, of the accepted
//! denomination, with a positive amount.

use vstd::prelude::*;
use crate::error::PaymentFault;
use crate::state::Coin;
use crate::state::CoinV;

verus! {

/// Whether the attached funds pass the check: exactly one coin, of the
/// accepted denomination, with a positive amount.
pub open spec fn funds_accepted(funds: Seq<CoinV>, denom: Seq<char>) -> bool {
    funds.len() == 1 && funds[0].denom == denom && funds[0].amount > 0
}

/// Which fault the payment checker reports for rejected funds. The last
/// two variants never come out of this check.
pub open spec fn fault_matches(f: PaymentFault, funds: Seq<CoinV>, denom: Seq<char>) -> bool {
    match f {
        PaymentFault::NoFunds => funds.len() == 0 || (funds.len() == 1 && funds[0].amount == 0),
        PaymentFault::MultipleDenoms => funds.len() > 1,
        PaymentFault::MissingDenom(d) => funds.len() == 1 && funds[0].amount > 0 && funds[0].denom
            != denom && d@ == denom,
        PaymentFault::ExtraDenom(_) => false,
        PaymentFault::NonPayable => false,
    }
}

/// Relies on `cw_utils::must_pay`: it accepts the attached funds exactly
/// when they are one coin of the given denomination with a nonzero amount,
/// and then returns that coin's amount; otherwise it reports which check
/// failed (no funds or a zero amount; several coins; one sufficient coin of
/// the wrong denomination, carrying the requested denomination). The sender
/// handed to it is immaterial: the check reads only the funds. The amounts
/// fit in 128 bits, so the width conversion round-trips.
#[verifier::external_body]
pub(crate) fn must_pay(funds: &Vec<Coin>, denom: &String) -> (r: Result<u128, PaymentFault>)
    ensures
        match r {
            Ok(amount) => funds_accepted(funds.deep_view(), denom@) && amount == funds.deep_view()[0].amount,
            Err(f) => !funds_accepted(funds.deep_view(), denom@) && fault_matches(
                f,
                funds.deep_view(),
                denom@,
            ),
        },
{
    let info = cosmwasm_std::MessageInfo {
        sender: cosmwasm_std::Addr::unchecked(""),
        funds: funds.iter().map(|c| cosmwasm_std::Coin::new(c.amount, c.denom.as_str())).collect(),
    };
    match cw_utils::must_pay(&info, denom.as_str()) {
        Ok(a) => Ok(cosmwasm_std::Uint128::try_from(a).unwrap().u128()),
        Err(cw_utils::PaymentError::MissingDenom(d)) => Err(PaymentFault::MissingDenom(d)),
        Err(cw_utils::PaymentError::ExtraDenom(d)) => Err(PaymentFault::ExtraDenom(d)),
        Err(cw_utils::PaymentError::MultipleDenoms {}) => Err(PaymentFault::MultipleDenoms),
        Err(cw_utils::PaymentError::NoFunds {}) => Err(PaymentFault::NoFunds),
        Err(cw_utils::PaymentError::NonPayable {}) => Err(PaymentFault::NonPayable),
    }
}

} // verus!
