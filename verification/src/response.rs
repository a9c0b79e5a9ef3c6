//! The structured result of an execution call: outbound transfers, events
//! and attributes, in emission order. The host records them; together they
//! form the observable audit trail of an instruction.

use vstd::prelude::*;
use vstd::string::StringExecFns;
use crate::state::Coin;
use crate::state::CoinV;

verus! {

/// The spec-level value of an [`Attribute`].
#[verifier::ext_equal]
pub struct AttributeV {
    pub key: Seq<char>,
    pub value: Seq<char>,
}

/// One key-value annotation attached to a response or an event.
#[derive(Debug)]
pub struct Attribute {
    pub key: String,
    pub value: String,
}

impl View for Attribute {
    type V = AttributeV;

    open spec fn view(&self) -> AttributeV {
        AttributeV { key: self.key@, value: self.value@ }
    }
}

impl DeepView for Attribute {
    type V = AttributeV;

    open spec fn deep_view(&self) -> AttributeV {
        self@
    }
}

impl Attribute {
    pub fn new(key: &str, value: String) -> (r: Attribute)
        ensures
            r@ == (AttributeV { key: key@, value: value@ }),
    {
        Attribute { key: String::from_str(key), value }
    }
}

/// The spec-level value of an [`Event`].
#[verifier::ext_equal]
pub struct EventV {
    pub ty: Seq<char>,
    pub attributes: Seq<AttributeV>,
}

/// A structured event: a type tag and its own attributes.
#[derive(Debug)]
pub struct Event {
    pub ty: String,
    pub attributes: Vec<Attribute>,
}

impl View for Event {
    type V = EventV;

    open spec fn view(&self) -> EventV {
        EventV { ty: self.ty@, attributes: self.attributes.deep_view() }
    }
}

impl DeepView for Event {
    type V = EventV;

    open spec fn deep_view(&self) -> EventV {
        self@
    }
}

impl Event {
    pub fn new(ty: &str) -> (r: Event)
        ensures
            r@ == (EventV { ty: ty@, attributes: Seq::empty() }),
    {
        let e = Event { ty: String::from_str(ty), attributes: Vec::new() };
        proof {
            assert(e@ =~= (EventV { ty: ty@, attributes: Seq::empty() }));
        }
        e
    }

    pub fn add_attribute(self, key: &str, value: String) -> (r: Event)
        ensures
            r@ == (EventV {
                ty: self@.ty,
                attributes: self@.attributes.push((AttributeV { key: key@, value: value@ })),
            }),
    {
        let mut e = self;
        let ghost before = e@;
        e.attributes.push(Attribute::new(key, value));
        proof {
            assert(e@ =~= (EventV {
                ty: before.ty,
                attributes: before.attributes.push((AttributeV { key: key@, value: value@ })),
            }));
        }
        e
    }
}

/// The spec-level value of a [`BankTransfer`].
#[verifier::ext_equal]
pub struct BankTransferV {
    pub to_address: Seq<char>,
    pub amount: Seq<CoinV>,
}

/// An outbound value-transfer instruction for the host's bank subsystem.
/// The library only emits these; moving the value is the host's work.
#[derive(Debug)]
pub struct BankTransfer {
    pub to_address: String,
    pub amount: Vec<Coin>,
}

impl View for BankTransfer {
    type V = BankTransferV;

    open spec fn view(&self) -> BankTransferV {
        BankTransferV { to_address: self.to_address@, amount: self.amount.deep_view() }
    }
}

impl DeepView for BankTransfer {
    type V = BankTransferV;

    open spec fn deep_view(&self) -> BankTransferV {
        self@
    }
}

/// The spec-level value of a [`Response`].
#[verifier::ext_equal]
pub struct ResponseV {
    pub messages: Seq<BankTransferV>,
    pub attributes: Seq<AttributeV>,
    pub events: Seq<EventV>,
}

/// What an execution call hands back to the host.
#[derive(Debug)]
pub struct Response {
    pub messages: Vec<BankTransfer>,
    pub attributes: Vec<Attribute>,
    pub events: Vec<Event>,
}

impl View for Response {
    type V = ResponseV;

    open spec fn view(&self) -> ResponseV {
        ResponseV {
            messages: self.messages.deep_view(),
            attributes: self.attributes.deep_view(),
            events: self.events.deep_view(),
        }
    }
}

/// The view of a response with nothing attached.
pub open spec fn empty_response() -> ResponseV {
    ResponseV { messages: Seq::empty(), attributes: Seq::empty(), events: Seq::empty() }
}

impl Response {
    pub fn new() -> (r: Response)
        ensures
            r@ == empty_response(),
    {
        let r = Response { messages: Vec::new(), attributes: Vec::new(), events: Vec::new() };
        proof {
            assert(r@ =~= empty_response());
        }
        r
    }

    pub fn add_attribute(self, key: &str, value: String) -> (r: Response)
        ensures
            r@ == (ResponseV {
                messages: self@.messages,
                attributes: self@.attributes.push((AttributeV { key: key@, value: value@ })),
                events: self@.events,
            }),
    {
        let mut r = self;
        let ghost before = r@;
        r.attributes.push(Attribute::new(key, value));
        proof {
            assert(r@ =~= (ResponseV {
                messages: before.messages,
                attributes: before.attributes.push((AttributeV { key: key@, value: value@ })),
                events: before.events,
            }));
        }
        r
    }

    pub fn add_message(self, m: BankTransfer) -> (r: Response)
        ensures
            r@ == (ResponseV {
                messages: self@.messages.push(m@),
                attributes: self@.attributes,
                events: self@.events,
            }),
    {
        let mut r = self;
        let ghost before = r@;
        let ghost mv = m@;
        r.messages.push(m);
        proof {
            assert(r@ =~= (ResponseV {
                messages: before.messages.push(mv),
                attributes: before.attributes,
                events: before.events,
            }));
        }
        r
    }

    pub fn add_event(self, e: Event) -> (r: Response)
        ensures
            r@ == (ResponseV {
                messages: self@.messages,
                attributes: self@.attributes,
                events: self@.events.push(e@),
            }),
    {
        let mut r = self;
        let ghost before = r@;
        let ghost ev = e@;
        r.events.push(e);
        proof {
            assert(r@ =~= (ResponseV {
                messages: before.messages,
                attributes: before.attributes,
                events: before.events.push(ev),
            }));
        }
        r
    }
}

} // verus!
