//! The TMF666 `Account` family: one payload type for the base class and its
//! four subclasses, told apart by `@type`.
use vstd::prelude::*;
use crate::model::extensible::{Extensions, TmfType};
use crate::model::value::{Money, TimePeriod, Timestamp};
use crate::text::str_eq;

verus! {

/// Which class of the `Account` family a payload is.
#[derive(Debug, Clone, Copy, PartialEq, Eq, Structural)]
pub enum AccountKind {
    /// The base `Account`.
    Base,
    /// A `BillingAccount`.
    Billing,
    /// A `FinancialAccount`.
    Financial,
    /// A `PartyAccount`.
    Party,
    /// A `SettlementAccount`.
    Settlement,
    /// A subclass this crate does not know.
    Other,
}

/// The class a `@type` names.
pub open spec fn kind_of_account_class(name: Seq<char>) -> AccountKind {
    if name == "Account"@ {
        AccountKind::Base
    } else if name == "BillingAccount"@ {
        AccountKind::Billing
    } else if name == "FinancialAccount"@ {
        AccountKind::Financial
    } else if name == "PartyAccount"@ {
        AccountKind::Party
    } else if name == "SettlementAccount"@ {
        AccountKind::Settlement
    } else {
        AccountKind::Other
    }
}

/// The class name of a kind; an unknown subclass names the base class.
pub open spec fn account_class(kind: AccountKind) -> Seq<char> {
    match kind {
        AccountKind::Base | AccountKind::Other => "Account"@,
        AccountKind::Billing => "BillingAccount"@,
        AccountKind::Financial => "FinancialAccount"@,
        AccountKind::Party => "PartyAccount"@,
        AccountKind::Settlement => "SettlementAccount"@,
    }
}

/// The collection a kind's resources live in. TMF666 has no collection of
/// the base class: a bare `Account`, like an unknown subclass, is served
/// from `partyAccount`.
pub open spec fn account_collection(kind: AccountKind) -> Seq<char> {
    match kind {
        AccountKind::Base | AccountKind::Other | AccountKind::Party => "partyAccount"@,
        AccountKind::Billing => "billingAccount"@,
        AccountKind::Financial => "financialAccount"@,
        AccountKind::Settlement => "settlementAccount"@,
    }
}

/// Every known kind's class name leads back to it.
pub proof fn lemma_account_class_round_trip(kind: AccountKind)
    requires
        !(kind is Other),
    ensures
        kind_of_account_class(account_class(kind)) == kind,
{
    reveal_strlit("Account");
    reveal_strlit("BillingAccount");
    reveal_strlit("FinancialAccount");
    reveal_strlit("PartyAccount");
    reveal_strlit("SettlementAccount");
    assert("Account"@.len() != "BillingAccount"@.len());
    assert("Account"@.len() != "FinancialAccount"@.len());
    assert("Account"@.len() != "PartyAccount"@.len());
    assert("Account"@.len() != "SettlementAccount"@.len());
    assert("BillingAccount"@.len() != "FinancialAccount"@.len());
    assert("BillingAccount"@.len() != "PartyAccount"@.len());
    assert("BillingAccount"@.len() != "SettlementAccount"@.len());
    assert("FinancialAccount"@.len() != "PartyAccount"@.len());
    assert("FinancialAccount"@.len() != "SettlementAccount"@.len());
    assert("PartyAccount"@.len() != "SettlementAccount"@.len());
}

impl AccountKind {
    /// Every known kind, in declaration order.
    pub fn all() -> (r: Vec<AccountKind>)
        ensures
            r@ == seq![
                AccountKind::Base,
                AccountKind::Billing,
                AccountKind::Financial,
                AccountKind::Party,
                AccountKind::Settlement,
            ],
    {
        vec![
            AccountKind::Base,
            AccountKind::Billing,
            AccountKind::Financial,
            AccountKind::Party,
            AccountKind::Settlement,
        ]
    }

    /// The kind a `@type` names; an unknown subclass is `Other`.
    pub fn from_type_name(name: &str) -> (r: AccountKind)
        ensures
            r == kind_of_account_class(name@),
    {
        if str_eq(name, "Account") {
            AccountKind::Base
        } else if str_eq(name, "BillingAccount") {
            AccountKind::Billing
        } else if str_eq(name, "FinancialAccount") {
            AccountKind::Financial
        } else if str_eq(name, "PartyAccount") {
            AccountKind::Party
        } else if str_eq(name, "SettlementAccount") {
            AccountKind::Settlement
        } else {
            AccountKind::Other
        }
    }

    /// The class name of this kind.
    pub fn class_name(self) -> (r: &'static str)
        ensures
            r@ == account_class(self),
    {
        match self {
            AccountKind::Base | AccountKind::Other => "Account",
            AccountKind::Billing => "BillingAccount",
            AccountKind::Financial => "FinancialAccount",
            AccountKind::Party => "PartyAccount",
            AccountKind::Settlement => "SettlementAccount",
        }
    }

    /// The collection this kind's resources live in.
    pub fn collection(self) -> (r: &'static str)
        ensures
            r@ == account_collection(self),
    {
        match self {
            AccountKind::Base | AccountKind::Other | AccountKind::Party => "partyAccount",
            AccountKind::Billing => "billingAccount",
            AccountKind::Financial => "financialAccount",
            AccountKind::Settlement => "settlementAccount",
        }
    }
}

/// A balance held against an account, for a period.
#[derive(Debug, Clone)]
pub struct AccountBalance {
    /// Identifier of the balance.
    pub id: Option<String>,
    /// What kind of balance this is, such as `deposit` or `disputed`.
    pub balance_type: Option<String>,
    /// How much.
    pub amount: Option<Money>,
    /// The period the balance applies to.
    pub valid_for: Option<TimePeriod>,
    /// `@type`; empty when not given.
    pub at_type: String,
    /// `@baseType`.
    pub at_base_type: Option<String>,
    /// `@schemaLocation`.
    pub at_schema_location: Option<String>,
    /// Members beyond those above.
    pub extensions: Extensions,
}

impl TmfType for AccountBalance {
    const TYPE_NAME: &'static str = "AccountBalance";
    const REF_TYPE_NAME: &'static str = "EntityRef";
}

/// An account of any class in the family. The members whose classes hold
/// references or parties are held as their JSON text.
#[derive(Debug, Clone)]
pub struct Account {
    /// Identifier.
    pub id: Option<String>,
    /// Reference.
    pub href: Option<String>,
    /// Name.
    pub name: Option<String>,
    /// Description.
    pub description: Option<String>,
    /// Account type, in words.
    pub account_type: Option<String>,
    /// Lifecycle state.
    pub state: Option<String>,
    /// When it last changed.
    pub last_update: Option<Timestamp>,
    /// The most the account may owe.
    pub credit_limit: Option<Money>,
    /// Balances held against the account.
    pub account_balance: Option<Vec<AccountBalance>>,
    /// Relationships, as JSON text.
    pub account_relationship: Option<String>,
    /// Contacts, as JSON text.
    pub contact: Option<String>,
    /// Tax exemptions, as JSON text.
    pub tax_exemption: Option<String>,
    /// Related parties, as JSON text.
    pub related_party: Option<String>,
    /// Bill structure, as JSON text.
    pub bill_structure: Option<String>,
    /// Default payment method reference, as JSON text.
    pub default_payment_method: Option<String>,
    /// Financial account reference, as JSON text.
    pub financial_account: Option<String>,
    /// Payment plans, as JSON text.
    pub payment_plan: Option<String>,
    /// Payment status.
    pub payment_status: Option<String>,
    /// Rating type (billing accounts).
    pub rating_type: Option<String>,
    /// `@referredType`.
    pub referred_type: Option<String>,
    /// `@type`; empty when not given.
    pub at_type: String,
    /// `@baseType`.
    pub at_base_type: Option<String>,
    /// `@schemaLocation`.
    pub at_schema_location: Option<String>,
    /// Members beyond those above.
    pub extensions: Extensions,
}

impl TmfType for Account {
    const TYPE_NAME: &'static str = "Account";
    const REF_TYPE_NAME: &'static str = "AccountRef";
}

impl crate::model::reference::Entity for Account {
    open spec fn id_spec(&self) -> Option<Seq<char>> {
        match self.id {
            Some(i) => Some(i@),
            None => None,
        }
    }

    open spec fn href_spec(&self) -> Option<Seq<char>> {
        match self.href {
            Some(h) => Some(h@),
            None => None,
        }
    }

    fn id(&self) -> (r: Option<&str>) {
        match &self.id {
            Some(i) => Some(i.as_str()),
            None => None,
        }
    }

    fn href(&self) -> (r: Option<&str>)
        ensures
            match r {
                Some(h) => self.href matches Some(s) && s@ == h@,
                None => self.href is None,
            },
    {
        match &self.href {
            Some(h) => Some(h.as_str()),
            None => None,
        }
    }
}

impl Account {
    /// The class this payload declares, defaulting to `Account`.
    pub fn class_name(&self) -> (r: String)
        ensures
            r@ == (if self.at_type@.len() == 0 {
                "Account"@
            } else {
                self.at_type@
            }),
    {
        if self.at_type.as_str().is_empty() {
            "Account".to_owned()
        } else {
            self.at_type.clone()
        }
    }

    /// Which class of the family this payload is, by its `@type`.
    pub fn kind(&self) -> (r: AccountKind)
        ensures
            r == kind_of_account_class(if self.at_type@.len() == 0 {
                "Account"@
            } else {
                self.at_type@
            }),
    {
        let name = self.class_name();
        AccountKind::from_type_name(name.as_str())
    }
}

} // verus!
