//! TMF678 customer bill values: where a bill and a bill run stand.
use vstd::prelude::*;
use crate::text::str_eq;

verus! {

/// Where a customer bill stands.
#[derive(Debug, Clone, PartialEq, Eq)]
pub enum CustomerBillState {
    /// Just produced.
    New,
    /// Held back.
    OnHold,
    /// Checked and ready.
    Validated,
    /// Sent to the customer.
    Sent,
    /// Paid in full.
    Settled,
    /// Paid in part.
    PartiallyPaid,
    /// A state this crate does not know, kept as sent.
    Other(String),
}

/// Whether `s` is one of the names [`CustomerBillState`] has a variant for.
pub open spec fn customer_bill_state_known(s: Seq<char>) -> bool {
    s == "new"@
        || s == "onHold"@
        || s == "validated"@
        || s == "sent"@
        || s == "settled"@
        || s == "partiallyPaid"@
}

impl CustomerBillState {
    /// The name this goes by on the wire.
    pub open spec fn wire_spec(&self) -> Seq<char> {
        match self {
            CustomerBillState::New => "new"@,
            CustomerBillState::OnHold => "onHold"@,
            CustomerBillState::Validated => "validated"@,
            CustomerBillState::Sent => "sent"@,
            CustomerBillState::Settled => "settled"@,
            CustomerBillState::PartiallyPaid => "partiallyPaid"@,
            CustomerBillState::Other(s) => s@,
        }
    }

    /// Whether the wire name `s` reads as `self`: a known name as its
    /// variant, and any other name as `Other` holding it.
    pub open spec fn read_from(&self, s: Seq<char>) -> bool {
        match self {
            CustomerBillState::New => s == "new"@,
            CustomerBillState::OnHold => s == "onHold"@,
            CustomerBillState::Validated => s == "validated"@,
            CustomerBillState::Sent => s == "sent"@,
            CustomerBillState::Settled => s == "settled"@,
            CustomerBillState::PartiallyPaid => s == "partiallyPaid"@,
            CustomerBillState::Other(t) => t@ == s && !customer_bill_state_known(s),
        }
    }

    /// The name this goes by on the wire.
    pub fn wire(&self) -> (r: String)
        ensures
            r@ == self.wire_spec(),
    {
        match self {
            CustomerBillState::New => "new".to_owned(),
            CustomerBillState::OnHold => "onHold".to_owned(),
            CustomerBillState::Validated => "validated".to_owned(),
            CustomerBillState::Sent => "sent".to_owned(),
            CustomerBillState::Settled => "settled".to_owned(),
            CustomerBillState::PartiallyPaid => "partiallyPaid".to_owned(),
            CustomerBillState::Other(s) => s.clone(),
        }
    }

    /// What a wire name reads as. A name this crate does not know is
    /// kept, so it is written back exactly as it was read.
    pub fn from_wire(s: &str) -> (r: Self)
        ensures
            r.read_from(s@),
            r.wire_spec() == s@,
    {
        if str_eq(s, "new") {
            CustomerBillState::New
        } else if str_eq(s, "onHold") {
            CustomerBillState::OnHold
        } else if str_eq(s, "validated") {
            CustomerBillState::Validated
        } else if str_eq(s, "sent") {
            CustomerBillState::Sent
        } else if str_eq(s, "settled") {
            CustomerBillState::Settled
        } else if str_eq(s, "partiallyPaid") {
            CustomerBillState::PartiallyPaid
        } else {
            CustomerBillState::Other(s.to_owned())
        }
    }
}

/// Writing a [`CustomerBillState`] and reading the name back gives the same value;
/// an unknown name comes back as `Other` holding the same name. The one
/// exception is an `Other` spelling a known name, which reads back as that
/// variant.
pub proof fn lemma_customer_bill_state_round_trip(e: CustomerBillState, r: CustomerBillState)
    requires
        !(e is Other && customer_bill_state_known(e.wire_spec())),
        r.read_from(e.wire_spec()),
    ensures
        e is Other ==> r is Other && r.wire_spec() == e.wire_spec(),
        !(e is Other) ==> r == e,
{
    reveal_strlit("new");
    reveal_strlit("onHold");
    reveal_strlit("validated");
    reveal_strlit("sent");
    reveal_strlit("settled");
    reveal_strlit("partiallyPaid");
    assert("new"@.len() != "onHold"@.len());
    assert("new"@.len() != "validated"@.len());
    assert("new"@.len() != "sent"@.len());
    assert("new"@.len() != "settled"@.len());
    assert("new"@.len() != "partiallyPaid"@.len());
    assert("onHold"@.len() != "validated"@.len());
    assert("onHold"@.len() != "sent"@.len());
    assert("onHold"@.len() != "settled"@.len());
    assert("onHold"@.len() != "partiallyPaid"@.len());
    assert("validated"@.len() != "sent"@.len());
    assert("validated"@.len() != "settled"@.len());
    assert("validated"@.len() != "partiallyPaid"@.len());
    assert("sent"@.len() != "settled"@.len());
    assert("sent"@.len() != "partiallyPaid"@.len());
    assert("settled"@.len() != "partiallyPaid"@.len());
}
impl CustomerBillState {
    /// Whether money is still owed: every state but `settled`, including one
    /// this crate does not know.
    pub fn is_outstanding(&self) -> (r: bool)
        ensures
            r == !(self is Settled),
    {
        match self {
            CustomerBillState::Settled => false,
            _ => true,
        }
    }
}

/// Whether a bill was produced by the regular cycle.
#[derive(Debug, Clone, PartialEq, Eq)]
pub enum CustomerBillRunType {
    /// Produced by the billing cycle.
    OnCycle,
    /// Produced outside it.
    OffCycle,
    /// A run type this crate does not know, kept as sent.
    Other(String),
}

/// Whether `s` is one of the names [`CustomerBillRunType`] has a variant for.
pub open spec fn customer_bill_run_type_known(s: Seq<char>) -> bool {
    s == "onCycle"@
        || s == "offCycle"@
}

impl CustomerBillRunType {
    /// The name this goes by on the wire.
    pub open spec fn wire_spec(&self) -> Seq<char> {
        match self {
            CustomerBillRunType::OnCycle => "onCycle"@,
            CustomerBillRunType::OffCycle => "offCycle"@,
            CustomerBillRunType::Other(s) => s@,
        }
    }

    /// Whether the wire name `s` reads as `self`: a known name as its
    /// variant, and any other name as `Other` holding it.
    pub open spec fn read_from(&self, s: Seq<char>) -> bool {
        match self {
            CustomerBillRunType::OnCycle => s == "onCycle"@,
            CustomerBillRunType::OffCycle => s == "offCycle"@,
            CustomerBillRunType::Other(t) => t@ == s && !customer_bill_run_type_known(s),
        }
    }

    /// The name this goes by on the wire.
    pub fn wire(&self) -> (r: String)
        ensures
            r@ == self.wire_spec(),
    {
        match self {
            CustomerBillRunType::OnCycle => "onCycle".to_owned(),
            CustomerBillRunType::OffCycle => "offCycle".to_owned(),
            CustomerBillRunType::Other(s) => s.clone(),
        }
    }

    /// What a wire name reads as. A name this crate does not know is
    /// kept, so it is written back exactly as it was read.
    pub fn from_wire(s: &str) -> (r: Self)
        ensures
            r.read_from(s@),
            r.wire_spec() == s@,
    {
        if str_eq(s, "onCycle") {
            CustomerBillRunType::OnCycle
        } else if str_eq(s, "offCycle") {
            CustomerBillRunType::OffCycle
        } else {
            CustomerBillRunType::Other(s.to_owned())
        }
    }
}

/// Writing a [`CustomerBillRunType`] and reading the name back gives the same value;
/// an unknown name comes back as `Other` holding the same name. The one
/// exception is an `Other` spelling a known name, which reads back as that
/// variant.
pub proof fn lemma_customer_bill_run_type_round_trip(e: CustomerBillRunType, r: CustomerBillRunType)
    requires
        !(e is Other && customer_bill_run_type_known(e.wire_spec())),
        r.read_from(e.wire_spec()),
    ensures
        e is Other ==> r is Other && r.wire_spec() == e.wire_spec(),
        !(e is Other) ==> r == e,
{
    reveal_strlit("onCycle");
    reveal_strlit("offCycle");
    assert("onCycle"@.len() != "offCycle"@.len());
}
/// Where an on-demand bill request stands.
#[derive(Debug, Clone, PartialEq, Eq)]
pub enum CustomerBillOnDemandState {
    /// Being produced.
    InProgress,
    /// Refused.
    Rejected,
    /// Produced.
    Done,
    /// Failed.
    TerminatedWithError,
    /// A state this crate does not know, kept as sent.
    Other(String),
}

/// Whether `s` is one of the names [`CustomerBillOnDemandState`] has a variant for.
pub open spec fn customer_bill_on_demand_state_known(s: Seq<char>) -> bool {
    s == "inProgress"@
        || s == "rejected"@
        || s == "done"@
        || s == "terminatedWithError"@
}

impl CustomerBillOnDemandState {
    /// The name this goes by on the wire.
    pub open spec fn wire_spec(&self) -> Seq<char> {
        match self {
            CustomerBillOnDemandState::InProgress => "inProgress"@,
            CustomerBillOnDemandState::Rejected => "rejected"@,
            CustomerBillOnDemandState::Done => "done"@,
            CustomerBillOnDemandState::TerminatedWithError => "terminatedWithError"@,
            CustomerBillOnDemandState::Other(s) => s@,
        }
    }

    /// Whether the wire name `s` reads as `self`: a known name as its
    /// variant, and any other name as `Other` holding it.
    pub open spec fn read_from(&self, s: Seq<char>) -> bool {
        match self {
            CustomerBillOnDemandState::InProgress => s == "inProgress"@,
            CustomerBillOnDemandState::Rejected => s == "rejected"@,
            CustomerBillOnDemandState::Done => s == "done"@,
            CustomerBillOnDemandState::TerminatedWithError => s == "terminatedWithError"@,
            CustomerBillOnDemandState::Other(t) => t@ == s && !customer_bill_on_demand_state_known(s),
        }
    }

    /// The name this goes by on the wire.
    pub fn wire(&self) -> (r: String)
        ensures
            r@ == self.wire_spec(),
    {
        match self {
            CustomerBillOnDemandState::InProgress => "inProgress".to_owned(),
            CustomerBillOnDemandState::Rejected => "rejected".to_owned(),
            CustomerBillOnDemandState::Done => "done".to_owned(),
            CustomerBillOnDemandState::TerminatedWithError => "terminatedWithError".to_owned(),
            CustomerBillOnDemandState::Other(s) => s.clone(),
        }
    }

    /// What a wire name reads as. A name this crate does not know is
    /// kept, so it is written back exactly as it was read.
    pub fn from_wire(s: &str) -> (r: Self)
        ensures
            r.read_from(s@),
            r.wire_spec() == s@,
    {
        if str_eq(s, "inProgress") {
            CustomerBillOnDemandState::InProgress
        } else if str_eq(s, "rejected") {
            CustomerBillOnDemandState::Rejected
        } else if str_eq(s, "done") {
            CustomerBillOnDemandState::Done
        } else if str_eq(s, "terminatedWithError") {
            CustomerBillOnDemandState::TerminatedWithError
        } else {
            CustomerBillOnDemandState::Other(s.to_owned())
        }
    }
}

/// Writing a [`CustomerBillOnDemandState`] and reading the name back gives the same value;
/// an unknown name comes back as `Other` holding the same name. The one
/// exception is an `Other` spelling a known name, which reads back as that
/// variant.
pub proof fn lemma_customer_bill_on_demand_state_round_trip(e: CustomerBillOnDemandState, r: CustomerBillOnDemandState)
    requires
        !(e is Other && customer_bill_on_demand_state_known(e.wire_spec())),
        r.read_from(e.wire_spec()),
    ensures
        e is Other ==> r is Other && r.wire_spec() == e.wire_spec(),
        !(e is Other) ==> r == e,
{
    reveal_strlit("inProgress");
    reveal_strlit("rejected");
    reveal_strlit("done");
    reveal_strlit("terminatedWithError");
    assert("inProgress"@.len() != "rejected"@.len());
    assert("inProgress"@.len() != "done"@.len());
    assert("inProgress"@.len() != "terminatedWithError"@.len());
    assert("rejected"@.len() != "done"@.len());
    assert("rejected"@.len() != "terminatedWithError"@.len());
    assert("done"@.len() != "terminatedWithError"@.len());
}
impl CustomerBillOnDemandState {
    /// Whether the request has stopped: `done`, `rejected` or
    /// `terminatedWithError`; an unrecognised state must not stop a poller.
    pub fn is_finished(&self) -> (r: bool)
        ensures
            r == (self is Done || self is Rejected || self is TerminatedWithError),
    {
        match self {
            CustomerBillOnDemandState::Done | CustomerBillOnDemandState::Rejected
            | CustomerBillOnDemandState::TerminatedWithError => true,
            _ => false,
        }
    }
}

} // verus!
