//! The library-wide laws, each proved from the contracts that the
//! dispatchers state — no body of the executable code is re-examined here.

use vstd::prelude::*;
use vstd::arithmetic::div_mod::lemma_div_pos_is_pos;
use vstd::arithmetic::div_mod::lemma_fundamental_div_mod;
use vstd::arithmetic::div_mod::lemma_mod_bound;
use vstd::arithmetic::mul::lemma_mul_is_commutative;
use crate::contract::add_members_post;
use crate::contract::admin_lists_post;
use crate::contract::instantiate_post;
use crate::contract::leave_post;
use crate::contract::donate_post;
use crate::contract::is_admin;
use crate::contract::ok_ids;
use crate::error::ContractError;
use crate::payment::funds_accepted;
use crate::msg::AdminsListResp;
use crate::response::BankTransferV;
use crate::response::Response;
use crate::state::CoinV;
use crate::state::Identity;
use crate::state::Store;

verus! {

/// The total amount named by a sequence of coins.
pub open spec fn coin_sum(cs: Seq<CoinV>) -> int
    decreases cs.len(),
{
    if cs.len() == 0 {
        0
    } else {
        coin_sum(cs.drop_last()) + cs.last().amount
    }
}

/// The total amount carried by a sequence of transfer instructions.
pub open spec fn transfer_sum(ms: Seq<BankTransferV>) -> int
    decreases ms.len(),
{
    if ms.len() == 0 {
        0
    } else {
        transfer_sum(ms.drop_last()) + coin_sum(ms.last().amount)
    }
}

proof fn lemma_uniform_transfer_sum(ms: Seq<BankTransferV>, per: u128)
    requires
        forall|i: int| 0 <= i < ms.len() ==> coin_sum(#[trigger] ms[i].amount) == per,
    ensures
        transfer_sum(ms) == ms.len() * per,
    decreases ms.len(),
{
    if ms.len() > 0 {
        lemma_uniform_transfer_sum(ms.drop_last(), per);
        assert(coin_sum(ms[ms.len() - 1].amount) == per);
        assert((ms.len() - 1) * per + per == ms.len() * per) by (nonlinear_arith);
    }
}

proof fn lemma_filter_all<A>(s: Seq<A>, pred: spec_fn(A) -> bool)
    requires
        forall|i: int| 0 <= i < s.len() ==> pred(#[trigger] s[i]),
    ensures
        s.filter(pred) == s,
    decreases s.len(),
{
    reveal(Seq::filter);
    if s.len() > 0 {
        assert(pred(s[s.len() - 1]));
        lemma_filter_all(s.drop_last(), pred);
        assert(s.drop_last().push(s.last()) =~= s);
    }
}

/// Law: after a successful instantiation, the admin-list query answers
/// exactly the validated admins, in order.
pub proof fn instantiation_validity(
    pre: Store,
    post: Store,
    denom: Seq<char>,
    validated: Seq<Result<Identity, String>>,
    r: Result<Response, ContractError>,
    q: Result<AdminsListResp, ContractError>,
)
    requires
        instantiate_post(pre, post, denom, validated, r),
        r is Ok,
        admin_lists_post(post, q),
    ensures
        q matches Ok(resp) && resp.admins.deep_view() == ok_ids(validated),
{
}

/// Law: a successful `AddMembers` leaves exactly the old admin sequence
/// with the validated newcomers appended, in order and duplicates
/// included, and that is what the admin-list query then reports.
pub proof fn append_semantics(
    pre: Store,
    post: Store,
    sender: Identity,
    raw: Seq<Seq<char>>,
    validated: Seq<Result<Identity, String>>,
    r: Result<Response, ContractError>,
    q: Result<AdminsListResp, ContractError>,
)
    requires
        add_members_post(pre, post, sender, raw, validated, r),
        r is Ok,
        admin_lists_post(post, q),
    ensures
        q matches Ok(resp) && resp.admins.deep_view() == pre.spec_admins()->Some_0 + ok_ids(
            validated,
        ),
{
}

/// Law: leaving twice in a row is a no-op the second time, and after
/// either call the caller occurs nowhere in the admin sequence.
pub proof fn leave_idempotence(
    s0: Store,
    s1: Store,
    s2: Store,
    sender: Identity,
    r1: Result<Response, ContractError>,
    r2: Result<Response, ContractError>,
)
    requires
        leave_post(s0, s1, sender, r1),
        r1 is Ok,
        leave_post(s1, s2, sender, r2),
    ensures
        r2 is Ok,
        s2.spec_admins() == s1.spec_admins(),
        s1.spec_admins() matches Some(a) && forall|i: int|
            0 <= i < a.len() ==> #[trigger] a[i] != sender@,
{
    let pred = |a: Seq<char>| a != sender@;
    let cur = s0.spec_admins()->Some_0;
    let once = cur.filter(pred);
    assert forall|i: int| 0 <= i < once.len() implies #[trigger] once[i] != sender@ by {
        cur.lemma_filter_pred(pred, i);
    }
    lemma_filter_all(once, pred);
}

/// Law: `AddMembers` from a sender who is no current admin always fails
/// with an authorization error naming that sender, and the store is left
/// exactly as it was.
pub proof fn authorization(
    pre: Store,
    post: Store,
    sender: Identity,
    raw: Seq<Seq<char>>,
    validated: Seq<Result<Identity, String>>,
    r: Result<Response, ContractError>,
)
    requires
        add_members_post(pre, post, sender, raw, validated, r),
        ({
            &&& pre.spec_admins() matches Some(cur)
            &&& !is_admin(cur, sender@)
        }),
    ensures
        (r matches Err(e) && e matches ContractError::Unauthorized { sender: who } && who
            == sender),
        post == pre,
{
}

/// Law: `Donate` with rejected funds (wrong denomination, zero amount,
/// no coin or several) or with zero current admins always fails, the
/// store is left exactly as it was, and no transfer instruction is
/// emitted — a failed instruction carries no response at all.
pub proof fn donation_failure_modes(
    pre: Store,
    post: Store,
    funds: Seq<CoinV>,
    r: Result<Response, ContractError>,
)
    requires
        donate_post(pre, post, funds, r),
        ({
            &&& pre.spec_denom() matches Some(denom)
            &&& pre.spec_admins() matches Some(cur)
            &&& (!funds_accepted(funds, denom) || cur.len() == 0)
        }),
    ensures
        r is Err,
        post == pre,
{
}

/// Law: a successful donation of total `T` to `N > 0` admins emits
/// transfers summing to exactly `floor(T/N) * N`, which never exceeds
/// `T`; the remainder `T - floor(T/N) * N` is smaller than `N` and stays
/// on the contract's own balance, transferred to nobody.
pub proof fn donation_conservation(
    pre: Store,
    post: Store,
    funds: Seq<CoinV>,
    r: Result<Response, ContractError>,
)
    requires
        donate_post(pre, post, funds, r),
        r is Ok,
    ensures
        ({
            let cur = pre.spec_admins()->Some_0;
            let total = funds[0].amount as int;
            let n = cur.len() as int;
            let per = total / n;
            &&& transfer_sum(r->Ok_0@.messages) == per * n
            &&& 0 <= per * n <= total
            &&& total - per * n < n
        }),
{
    let cur = pre.spec_admins()->Some_0;
    let denom = pre.spec_denom()->Some_0;
    let total = funds[0].amount as int;
    let n = cur.len() as int;
    let per = (total / n) as u128;
    let ms = r->Ok_0@.messages;
    assert forall|i: int| 0 <= i < ms.len() implies coin_sum(#[trigger] ms[i].amount) == per by {
        assert(ms[i].amount == seq![CoinV { denom: denom, amount: per }]);
        assert(seq![CoinV { denom: denom, amount: per }].drop_last() =~= Seq::<CoinV>::empty());
        assert(coin_sum(Seq::<CoinV>::empty()) == 0);
        assert(coin_sum(seq![CoinV { denom: denom, amount: per }]) == per);
    }
    lemma_uniform_transfer_sum(ms, per);
    assert(ms.len() == n);
    lemma_div_pos_is_pos(total, n);
    lemma_fundamental_div_mod(total, n);
    lemma_mod_bound(total, n);
    lemma_mul_is_commutative(n, per as int);
    assert(0 <= (per as int) * n) by (nonlinear_arith)
        requires
            0 <= per as int,
            0 < n,
    ;
}

} // verus!
