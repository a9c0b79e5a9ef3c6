//! The transition engine: the instantiation handler, the execution
//! dispatcher and the query dispatcher, over the persisted [`Store`].
//!
//! Address validation is an opaque capability of the hosting runtime. The
//! host runs it on each raw admin string and hands the outcomes in, one
//! per string and in the same order; every decision taken on those
//! outcomes — abort on the first failure, append the validated identities
//! — is made and verified here.

use vstd::prelude::*;
use vstd::string::StringExecFns;
use crate::error::ContractError;
use crate::msg::AdminsListResp;
use crate::msg::CountResp;
use crate::msg::ExcuteMsg;
use crate::msg::GreetResp;
use crate::msg::InstantiateMessage;
use crate::msg::QueryMsg;
use crate::msg::QueryResp;
use crate::numeral::dec_of;
use crate::numeral::dec_u128;
use crate::numeral::dec_usize;
use crate::payment::fault_matches;
use crate::payment::funds_accepted;
use crate::response::AttributeV;
use crate::response::BankTransfer;
use crate::response::BankTransferV;
use crate::response::Event;
use crate::response::EventV;
use crate::response::Response;
use crate::response::ResponseV;
use crate::response::empty_response;
use crate::state::Coin;
use crate::state::CoinV;
use crate::state::Identity;
use crate::state::MessageInfo;
use crate::state::Store;

verus! {

/// Whether `sender` occurs in the admin sequence (given as canonical texts).
pub open spec fn is_admin(admins: Seq<Seq<char>>, sender: Seq<char>) -> bool {
    exists|i: int| 0 <= i < admins.len() && admins[i] == sender
}

/// Whether every validation outcome succeeded.
pub open spec fn all_ok(outcomes: Seq<Result<Identity, String>>) -> bool {
    forall|i: int| 0 <= i < outcomes.len() ==> outcomes[i] is Ok
}

/// The canonical texts of the validated identities, in order. Meaningful
/// where every outcome succeeded.
pub open spec fn ok_ids(outcomes: Seq<Result<Identity, String>>) -> Seq<Seq<char>> {
    outcomes.map_values(|o: Result<Identity, String>| o->Ok_0@)
}

/// The index of the first failed validation outcome (the length where
/// none failed).
pub open spec fn first_err(outcomes: Seq<Result<Identity, String>>) -> int
    decreases outcomes.len(),
{
    if outcomes.len() == 0 {
        0
    } else if outcomes[0] is Err {
        0
    } else {
        1 + first_err(outcomes.drop_first())
    }
}

proof fn lemma_first_err_at(outcomes: Seq<Result<Identity, String>>, i: int)
    requires
        0 <= i < outcomes.len(),
        outcomes[i] is Err,
        forall|j: int| 0 <= j < i ==> outcomes[j] is Ok,
    ensures
        first_err(outcomes) == i,
    decreases i,
{
    if i > 0 {
        lemma_first_err_at(outcomes.drop_first(), i - 1);
    }
}

/// Membership test against the persisted admins.
fn contains_identity(admins: &Vec<Identity>, who: &Identity) -> (r: bool)
    ensures
        r == is_admin(admins.deep_view(), who@),
{
    let mut i: usize = 0;
    while i < admins.len()
        invariant
            i <= admins.len(),
            forall|j: int| 0 <= j < i ==> admins.deep_view()[j] != who@,
        decreases admins.len() - i,
    {
        if admins[i].same_as(who) {
            assert(admins.deep_view()[i as int] == who@);
            return true;
        }
        i += 1;
    }
    false
}

/// A fresh vector of identities with the same canonical texts.
fn copy_identities(v: &Vec<Identity>) -> (r: Vec<Identity>)
    ensures
        r.deep_view() == v.deep_view(),
{
    let mut out: Vec<Identity> = Vec::new();
    proof {
        assert(out.deep_view() =~= v.deep_view().take(0));
    }
    let mut i: usize = 0;
    while i < v.len()
        invariant
            i <= v.len(),
            out.deep_view() == v.deep_view().take(i as int),
        decreases v.len() - i,
    {
        proof {
            assert(out.deep_view().len() == i);
            assert(out@.len() == i);
        }
        let ghost out0 = out@;
        out.push(v[i].duplicate());
        proof {
            assert forall|j: int| 0 <= j < i + 1 implies out.deep_view()[j] == v.deep_view().take(
                i + 1 as int,
            )[j] by {
                assert(out.deep_view()[j] == out@[j].deep_view());
                if j < i {
                    assert(out@[j] == out0[j]);
                }
            }
            assert(out.deep_view() =~= v.deep_view().take(i + 1 as int));
        }
        i += 1;
    }
    proof {
        assert(v.deep_view().take(v.len() as int) =~= v.deep_view());
    }
    out
}

/// What the constant greeting query answers.
pub fn greet() -> (r: Result<GreetResp, ContractError>)
    ensures
        r matches Ok(g) && g.message@ == "Hello world"@,
{
    Ok(GreetResp { message: String::from_str("Hello world") })
}

/// Projection of the persisted admin sequence.
pub fn admin_lists(store: &Store) -> (r: Result<AdminsListResp, ContractError>)
    ensures
        admin_lists_post(*store, r),
{
    match store.load_admins() {
        Ok(v) => Ok(AdminsListResp { admins: copy_identities(v) }),
        Err(e) => Err(e),
    }
}

/// How the admin-list query relates to the store it reads.
pub open spec fn admin_lists_post(
    store: Store,
    r: Result<AdminsListResp, ContractError>,
) -> bool {
    match r {
        Ok(resp) => store.spec_admins() == Some(resp.admins.deep_view()),
        Err(e) => store.spec_admins() is None && e == ContractError::Storage,
    }
}

/// The read-only dispatcher: routes a request to its projection and never
/// touches the store.
pub fn query(store: &Store, msg: QueryMsg) -> (r: Result<QueryResp, ContractError>)
    ensures
        match msg {
            QueryMsg::Greet {} => r matches Ok(QueryResp::Greet(g)) && g.message@
                == "Hello world"@,
            QueryMsg::AdminsList {} => match r {
                Ok(a) => a matches QueryResp::AdminsList(resp) && store.spec_admins() == Some(
                    resp.admins.deep_view(),
                ),
                Err(e) => store.spec_admins() is None && e == ContractError::Storage,
            },
            QueryMsg::Count {} => match r {
                Ok(a) => a matches QueryResp::Count(c) && store.spec_count() == Some(c.value),
                Err(e) => store.spec_count() is None && e == ContractError::Storage,
            },
        },
{
    match msg {
        QueryMsg::Greet {} => match greet() {
            Ok(g) => Ok(QueryResp::Greet(g)),
            Err(e) => Err(e),
        },
        QueryMsg::AdminsList {} => match admin_lists(store) {
            Ok(a) => Ok(QueryResp::AdminsList(a)),
            Err(e) => Err(e),
        },
        QueryMsg::Count {} => match store.load_count() {
            Ok(n) => Ok(QueryResp::Count(CountResp { value: n })),
            Err(e) => Err(e),
        },
    }
}

/// How instantiation relates the store it leaves behind to the validation
/// outcomes and the requested denomination.
pub open spec fn instantiate_post(
    pre: Store,
    post: Store,
    denom: Seq<char>,
    validated: Seq<Result<Identity, String>>,
    r: Result<Response, ContractError>,
) -> bool {
    match r {
        Ok(resp) => {
            &&& all_ok(validated)
            &&& resp@ == empty_response()
            &&& post.spec_admins() == Some(ok_ids(validated))
            &&& post.spec_denom() == Some(denom)
            &&& post.spec_count() == pre.spec_count()
        },
        Err(e) => {
            &&& !all_ok(validated)
            &&& (e matches ContractError::Validation { message } && message
                == validated[first_err(validated)]->Err_0)
            &&& post == pre
        },
    }
}

/// One-time setup: persists the validated admin set and the accepted
/// denomination; any failed validation outcome aborts the whole call, so
/// no partial admin set is ever persisted.
///
/// `validated` holds the host capability's outcome for each raw admin
/// string of the message, in the same order.
pub fn instantiate(
    store: &mut Store,
    msg: InstantiateMessage,
    validated: Vec<Result<Identity, String>>,
) -> (r: Result<Response, ContractError>)
    requires
        validated@.len() == msg.admins@.len(),
    ensures
        instantiate_post(*old(store), *final(store), msg.donation_denom@, validated@, r),
{
    let mut ids: Vec<Identity> = Vec::new();
    proof {
        assert(ids.deep_view() =~= ok_ids(validated@).take(0));
    }
    let mut i: usize = 0;
    while i < validated.len()
        invariant
            i <= validated.len(),
            forall|j: int| 0 <= j < i ==> validated@[j] is Ok,
            ids.deep_view() == ok_ids(validated@).take(i as int),
        decreases validated.len() - i,
    {
        proof {
            assert(ids.deep_view().len() == i);
            assert(ids@.len() == i);
        }
        match &validated[i] {
            Ok(id) => {
                let ghost ids0 = ids@;
                ids.push(id.duplicate());
                proof {
                    assert forall|j: int| 0 <= j < i + 1 implies ids.deep_view()[j] == ok_ids(
                        validated@,
                    ).take(i + 1 as int)[j] by {
                        assert(ids.deep_view()[j] == ids@[j].deep_view());
                        if j < i {
                            assert(ids@[j] == ids0[j]);
                        }
                    }
                    assert(ids.deep_view() =~= ok_ids(validated@).take(i + 1 as int));
                }
            },
            Err(m) => {
                proof {
                    lemma_first_err_at(validated@, i as int);
                }
                return Err(ContractError::Validation { message: m.clone() });
            },
        }
        i += 1;
    }
    proof {
        assert(ids.deep_view() =~= ok_ids(validated@));
    }
    store.save_admins(ids);
    store.save_denom(msg.donation_denom);
    Ok(Response::new())
}


proof fn lemma_filter_push<A>(s: Seq<A>, x: A, pred: spec_fn(A) -> bool)
    ensures
        s.push(x).filter(pred) == (if pred(x) {
            s.filter(pred).push(x)
        } else {
            s.filter(pred)
        }),
{
    reveal(Seq::filter);
    assert(s.push(x).drop_last() =~= s);
    assert(s.push(x).last() == x);
}

/// How `Leave` relates the store it leaves behind to the caller: every
/// occurrence of the caller's identity is removed, everything else stays.
pub open spec fn leave_post(
    pre: Store,
    post: Store,
    sender: Identity,
    r: Result<Response, ContractError>,
) -> bool {
    match r {
        Ok(resp) => {
            &&& pre.spec_admins() matches Some(cur) && post.spec_admins() == Some(
                cur.filter(|a: Seq<char>| a != sender@),
            )
            &&& post.spec_denom() == pre.spec_denom()
            &&& post.spec_count() == pre.spec_count()
            &&& resp@ == empty_response()
        },
        Err(e) => pre.spec_admins() is None && e == ContractError::Storage && post == pre,
    }
}

/// Removes every occurrence of the caller from the admin sequence. No
/// authorization is required, and a caller who is no admin leaves the
/// sequence as it was: the call is idempotent.
pub fn leave(store: &mut Store, info: MessageInfo) -> (r: Result<Response, ContractError>)
    ensures
        leave_post(*old(store), *final(store), info.sender, r),
{
    let ghost pred = |a: Seq<char>| a != info.sender@;
    let current = match store.load_admins() {
        Ok(v) => v,
        Err(e) => return Err(e),
    };
    let mut kept: Vec<Identity> = Vec::new();
    proof {
        assert(current.deep_view().take(0) =~= Seq::<Seq<char>>::empty());
        assert(Seq::<Seq<char>>::empty().filter(pred) =~= Seq::<Seq<char>>::empty());
        assert(kept.deep_view() =~= current.deep_view().take(0).filter(pred));
    }
    let mut i: usize = 0;
    while i < current.len()
        invariant
            i <= current.len(),
            pred == (|a: Seq<char>| a != info.sender@),
            kept.deep_view() == current.deep_view().take(i as int).filter(pred),
        decreases current.len() - i,
    {
        let ghost kept0 = kept.deep_view();
        let keep_it = !current[i].same_as(&info.sender);
        if keep_it {
            proof {
                assert(kept.deep_view().len() == kept0.len());
                assert(kept@.len() == kept0.len());
            }
            kept.push(current[i].duplicate());
            proof {
                assert forall|j: int| 0 <= j < kept0.len() + 1 implies kept.deep_view()[j] == (
                kept0.push(current.deep_view()[i as int]))[j] by {
                    assert(kept.deep_view()[j] == kept@[j].deep_view());
                }
                assert(kept.deep_view() =~= kept0.push(current.deep_view()[i as int]));
            }
        }
        proof {
            let cv = current.deep_view();
            assert(cv.take(i + 1 as int) =~= cv.take(i as int).push(cv[i as int]));
            lemma_filter_push(cv.take(i as int), cv[i as int], pred);
            assert(kept.deep_view() == cv.take(i + 1 as int).filter(pred));
        }
        i += 1;
    }
    proof {
        assert(current.deep_view().take(current@.len() as int) =~= current.deep_view());
    }
    store.save_admins(kept);
    Ok(Response::new())
}


/// The response that a successful `AddMembers` carries: one event per raw
/// admin string, in order, then the action attribute and the count.
pub open spec fn add_members_response(raw: Seq<Seq<char>>) -> ResponseV {
    ResponseV {
        messages: Seq::empty(),
        attributes: seq![
            AttributeV { key: "action"@, value: "add_members"@ },
            AttributeV { key: "added_count"@, value: dec_of(raw.len()) },
        ],
        events: Seq::new(
            raw.len(),
            |i: int|
                EventV {
                    ty: "admin_added"@,
                    attributes: seq![AttributeV { key: "addr"@, value: raw[i] }],
                },
        ),
    }
}

/// How `AddMembers` relates the store it leaves behind to the caller, the
/// raw admin strings and their validation outcomes.
pub open spec fn add_members_post(
    pre: Store,
    post: Store,
    sender: Identity,
    raw: Seq<Seq<char>>,
    validated: Seq<Result<Identity, String>>,
    r: Result<Response, ContractError>,
) -> bool {
    match r {
        Ok(resp) => {
            &&& pre.spec_admins() matches Some(cur)
            &&& is_admin(cur, sender@)
            &&& all_ok(validated)
            &&& post.spec_admins() == Some(cur + ok_ids(validated))
            &&& post.spec_denom() == pre.spec_denom()
            &&& post.spec_count() == pre.spec_count()
            &&& resp@ == add_members_response(raw)
        },
        Err(e) => post == pre && match e {
            ContractError::Storage => pre.spec_admins() is None,
            ContractError::Unauthorized { sender: who } => {
                &&& pre.spec_admins() matches Some(cur)
                &&& !is_admin(cur, sender@)
                &&& who == sender
            },
            ContractError::Validation { message } => {
                &&& pre.spec_admins() matches Some(cur)
                &&& is_admin(cur, sender@)
                &&& !all_ok(validated)
                &&& message == validated[first_err(validated)]->Err_0
            },
            _ => false,
        },
    }
}

/// Appends further admins. Only a current admin may do this; each raw
/// admin string must have passed the host's validation capability, and the
/// first failed outcome aborts the whole instruction, so no partial append
/// is ever persisted. Duplicates are not rejected: an admin appended again
/// stands in the sequence twice.
///
/// `validated` holds the capability's outcome for each string of `admins`,
/// in the same order.
pub fn add_members(
    store: &mut Store,
    info: MessageInfo,
    admins: Vec<String>,
    validated: Vec<Result<Identity, String>>,
) -> (r: Result<Response, ContractError>)
    requires
        validated@.len() == admins@.len(),
    ensures
        add_members_post(
            *old(store),
            *final(store),
            info.sender,
            admins.deep_view(),
            validated@,
            r,
        ),
{
    let current = match store.load_admins() {
        Ok(v) => v,
        Err(e) => return Err(e),
    };
    if !contains_identity(current, &info.sender) {
        return Err(ContractError::Unauthorized { sender: info.sender });
    }
    let ghost cur0 = current.deep_view();
    let mut appended = copy_identities(current);
    let mut i: usize = 0;
    proof {
        assert(appended.deep_view() =~= cur0 + ok_ids(validated@).take(0));
    }
    while i < validated.len()
        invariant
            i <= validated.len(),
            old(store).spec_admins() == Some(cur0),
            is_admin(cur0, info.sender@),
            forall|j: int| 0 <= j < i ==> validated@[j] is Ok,
            appended.deep_view() == cur0 + ok_ids(validated@).take(i as int),
        decreases validated.len() - i,
    {
        proof {
            assert(appended.deep_view().len() == cur0.len() + i);
            assert(appended@.len() == cur0.len() + i);
        }
        let ghost pre_deep = appended.deep_view();
        match &validated[i] {
            Ok(id) => {
                let ghost app0 = appended@;
                appended.push(id.duplicate());
                proof {
                    assert forall|j: int| 0 <= j < app0.len() + 1 implies appended.deep_view()[j]
                        == (cur0 + ok_ids(validated@).take(i + 1 as int))[j] by {
                        assert(appended.deep_view()[j] == appended@[j].deep_view());
                        if j < app0.len() {
                            assert(appended@[j] == app0[j]);
                            assert(pre_deep[j] == app0[j].deep_view());
                            assert(pre_deep[j] == (cur0 + ok_ids(validated@).take(i as int))[j]);
                        } else {
                            assert(j == cur0.len() + i);
                            assert(appended@[j]@ == validated@[i as int]->Ok_0@);
                            assert(ok_ids(validated@)[i as int] == validated@[i as int]->Ok_0@);
                        }
                    }
                    assert(appended.deep_view() =~= cur0 + ok_ids(validated@).take(i + 1 as int));
                }
            },
            Err(m) => {
                proof {
                    lemma_first_err_at(validated@, i as int);
                    assert(validated@[i as int] is Err);
                    assert(!all_ok(validated@));
                }
                return Err(ContractError::Validation { message: m.clone() });
            },
        }
        i += 1;
    }
    proof {
        assert(ok_ids(validated@).take(validated@.len() as int) =~= ok_ids(validated@));
        assert(appended.deep_view() == cur0 + ok_ids(validated@));
    }
    let ghost target = add_members_response(admins.deep_view());
    let mut resp = Response::new();
    let mut k: usize = 0;
    proof {
        assert(resp@.events =~= target.events.take(0));
    }
    while k < admins.len()
        invariant
            k <= admins.len(),
            target == add_members_response(admins.deep_view()),
            resp@.messages == Seq::<BankTransferV>::empty(),
            resp@.attributes == Seq::<AttributeV>::empty(),
            resp@.events == target.events.take(k as int),
        decreases admins.len() - k,
    {
        let ev = Event::new("admin_added").add_attribute("addr", admins[k].clone());
        proof {
            assert(ev@.attributes =~= seq![
                AttributeV { key: "addr"@, value: admins.deep_view()[k as int] },
            ]);
            assert(ev@ =~~= target.events[k as int]);
        }
        resp = resp.add_event(ev);
        proof {
            assert(resp@.events =~= target.events.take(k + 1 as int));
        }
        k += 1;
    }
    let resp = resp.add_attribute("action", String::from_str("add_members"));
    let resp = resp.add_attribute("added_count", dec_usize(admins.len()));
    proof {
        assert(target.events.take(admins.deep_view().len() as int) =~= target.events);
        assert(resp@ =~~= target);
    }
    store.save_admins(appended);
    Ok(resp)
}


/// The response that a successful `Donate` carries: one transfer of the
/// floor share per admin, in admin order, then the action, total and
/// per-admin attributes. The remainder of the integer division is not
/// transferred anywhere: it simply stays on the contract's own balance.
pub open spec fn donate_response(admins: Seq<Seq<char>>, denom: Seq<char>, total: u128) -> ResponseV {
    let per = (total as int / admins.len() as int) as u128;
    ResponseV {
        messages: Seq::new(
            admins.len(),
            |i: int|
                BankTransferV {
                    to_address: admins[i],
                    amount: seq![CoinV { denom: denom, amount: per }],
                },
        ),
        attributes: seq![
            AttributeV { key: "action"@, value: "donate"@ },
            AttributeV { key: "amount"@, value: dec_of(total as nat) },
            AttributeV { key: "per_admin"@, value: dec_of(per as nat) },
        ],
        events: Seq::empty(),
    }
}

/// How `Donate` relates its result to the store it reads and the attached
/// funds; the store is never changed, whichever way the call ends.
pub open spec fn donate_post(
    pre: Store,
    post: Store,
    funds: Seq<CoinV>,
    r: Result<Response, ContractError>,
) -> bool {
    &&& post == pre
    &&& match r {
        Ok(resp) => {
            &&& pre.spec_denom() matches Some(denom)
            &&& pre.spec_admins() matches Some(cur)
            &&& funds_accepted(funds, denom)
            &&& cur.len() > 0
            &&& resp@ == donate_response(cur, denom, funds[0].amount)
        },
        Err(e) => match e {
            ContractError::Storage => pre.spec_denom() is None || pre.spec_admins() is None,
            ContractError::Payment { fault } => {
                &&& pre.spec_denom() matches Some(denom)
                &&& pre.spec_admins() is Some
                &&& !funds_accepted(funds, denom)
                &&& fault_matches(fault, funds, denom)
            },
            ContractError::Arithmetic => {
                &&& pre.spec_denom() matches Some(denom)
                &&& pre.spec_admins() matches Some(cur)
                &&& funds_accepted(funds, denom)
                &&& cur.len() == 0
            },
            _ => false,
        },
    }
}

/// Splits the attached payment evenly across the current admins: each
/// admin is owed the floor share, emitted as one transfer instruction per
/// admin, and the remainder stays with the contract. Rejected funds and an
/// empty admin set abort the instruction with nothing emitted.
pub fn donate(store: &mut Store, info: MessageInfo) -> (r: Result<Response, ContractError>)
    ensures
        donate_post(*old(store), *final(store), info.funds.deep_view(), r),
{
    let denom = match store.load_denom() {
        Ok(d) => d,
        Err(e) => return Err(e),
    };
    let admins = match store.load_admins() {
        Ok(v) => v,
        Err(e) => return Err(e),
    };
    let total = match crate::payment::must_pay(&info.funds, denom) {
        Ok(a) => a,
        Err(f) => return Err(ContractError::Payment { fault: f }),
    };
    if admins.len() == 0 {
        return Err(ContractError::Arithmetic);
    }
    let count = admins.len();
    let per = total / (count as u128);
    let ghost target = donate_response(admins.deep_view(), denom@, total);
    proof {
        assert(target.messages.len() == count);
    }
    let mut resp = Response::new();
    proof {
        assert(resp@.messages =~= target.messages.take(0));
    }
    let mut i: usize = 0;
    while i < count
        invariant
            i <= count,
            count == admins@.len(),
            count > 0,
            per == total as int / count as int,
            target == donate_response(admins.deep_view(), denom@, total),
            resp@.attributes == Seq::<AttributeV>::empty(),
            resp@.events == Seq::<EventV>::empty(),
            resp@.messages == target.messages.take(i as int),
        decreases count - i,
    {
        let mut amount: Vec<Coin> = Vec::new();
        amount.push(Coin { denom: denom.clone(), amount: per });
        let transfer = BankTransfer { to_address: admins[i].addr.clone(), amount };
        proof {
            assert(transfer@.amount =~= seq![CoinV { denom: denom@, amount: per }]);
            assert(transfer@ =~~= target.messages[i as int]);
        }
        resp = resp.add_message(transfer);
        proof {
            assert(resp@.messages =~= target.messages.take(i + 1 as int));
        }
        i += 1;
    }
    let resp = resp.add_attribute("action", String::from_str("donate"));
    let resp = resp.add_attribute("amount", dec_u128(total));
    let resp = resp.add_attribute("per_admin", dec_u128(per));
    proof {
        assert(target.messages.take(count as int) =~= target.messages);
        assert(resp@ =~~= target);
    }
    Ok(resp)
}

/// The execution dispatcher: one transition per instruction variant, each
/// an atomic unit — either the full effect commits, or the store is left
/// exactly as it was.
///
/// For `AddMembers`, `validated` holds the host capability's outcome for
/// each raw admin string of the instruction, in the same order; the other
/// variants ignore it.
pub fn execute(
    store: &mut Store,
    info: MessageInfo,
    msg: ExcuteMsg,
    validated: Vec<Result<Identity, String>>,
) -> (r: Result<Response, ContractError>)
    requires
        msg matches ExcuteMsg::AddMembers { admins } ==> validated@.len() == admins@.len(),
    ensures
        match msg {
            ExcuteMsg::AddMembers { admins } => add_members_post(
                *old(store),
                *final(store),
                info.sender,
                admins.deep_view(),
                validated@,
                r,
            ),
            ExcuteMsg::Leave {} => leave_post(*old(store), *final(store), info.sender, r),
            ExcuteMsg::Donate {} => donate_post(
                *old(store),
                *final(store),
                info.funds.deep_view(),
                r,
            ),
            ExcuteMsg::Increment {} => *final(store) == *old(store) && (r matches Ok(resp)
                && resp@ == empty_response()),
        },
{
    match msg {
        ExcuteMsg::AddMembers { admins } => add_members(store, info, admins, validated),
        ExcuteMsg::Leave {} => leave(store, info),
        ExcuteMsg::Donate {} => donate(store, info),
        ExcuteMsg::Increment {} => Ok(Response::new()),
    }
}

} // verus!
