use rutmf::api::client::resolve_url;
use rutmf::api::{Patch, TmfApi};
use rutmf::model::refs::{Account as AccountRef, Agreement, ServiceLevelAgreement};
use rutmf::model::reference::reference_to;
use rutmf::model::{
    Extensions, JsonPatchOp, Party, PartyOrPartyRole, PartyRole, Ref, RelatedParty, Target,
    TmfType,
};

struct Dummy;
impl TmfType for Dummy {
    const TYPE_NAME: &'static str = "Dummy";
    const REF_TYPE_NAME: &'static str = "DummyRef";
}

#[test]
fn a_new_reference_declares_both_classes() {
    let r: Ref<Dummy> = Ref::new("1").with_name("n").with_version("2.0");
    assert_eq!(r.id, "1");
    assert_eq!(r.referred_type.as_deref(), Some("Dummy"));
    assert_eq!(r.at_type, "DummyRef");
    assert_eq!(r.name.as_deref(), Some("n"));
    assert_eq!(r.version.as_deref(), Some("2.0"));
    assert_eq!(r.class_name(), "DummyRef");
}

#[test]
fn an_absent_type_stays_absent_but_is_still_known() {
    let r: Ref<Dummy> = Ref::from_parts(
        "1".into(),
        None,
        None,
        None,
        None,
        None,
        None,
        None,
        Extensions::new(),
    );
    assert_eq!(r.at_type, "");
    assert_eq!(r.class_name(), "DummyRef", "the class is known from `T`");
}

#[test]
fn only_an_absolute_href_is_followed() {
    let r: Ref<Dummy> = Ref::new("7").with_href("https://h/a/7");
    assert_eq!(r.absolute_href(), Some("https://h/a/7"));
    assert!(matches!(r.target(), Target::Href(h) if h == "https://h/a/7"));
    let relative: Ref<Dummy> = Ref::new("7").with_href("/a/7");
    assert_eq!(relative.absolute_href(), None);
    assert!(matches!(relative.target(), Target::Id(i) if i == "7"));
    let plain: Ref<Dummy> = Ref::new("8").with_href("http://h/a/8");
    assert!(plain.absolute_href().is_some());
}

#[test]
fn a_role_reference_dispatches_on_its_discriminator() {
    let role = Ref::<Party>::new("7").with_referred_type("Individual");
    let mut role = role;
    role.at_type = "PartyRoleRef".into();
    let target = PartyOrPartyRole::classify(role);
    assert!(matches!(target, PartyOrPartyRole::Role(_)));
    assert_eq!(target.id(), "7");
    assert_eq!(target.class_name(), "PartyRoleRef");
    assert_eq!(target.referred_type(), Some("Individual"));
    let party = PartyOrPartyRole::classify(Ref::<Party>::new("42"));
    assert!(matches!(party, PartyOrPartyRole::Party(_)));
}

#[test]
fn a_related_party_is_short_to_write_and_keeps_its_discriminator() {
    let buyer = RelatedParty::new("customer", PartyOrPartyRole::Party(Ref::new("4104")));
    assert_eq!(buyer.role.as_deref(), Some("customer"));
    assert_eq!(buyer.at_type, "RelatedPartyRefOrPartyRoleRef");
    let agent = RelatedParty::new("salesAgent", PartyOrPartyRole::Role(Ref::<PartyRole>::new("77")));
    assert_eq!(agent.party_or_party_role.unwrap().class_name(), "PartyRoleRef");
}

#[test]
fn reference_targets_name_their_classes() {
    assert_eq!(ServiceLevelAgreement::REF_TYPE_NAME, "SLARef");
    assert_eq!(Agreement::TYPE_NAME, "Agreement");
    assert_eq!(AccountRef::REF_TYPE_NAME, "AccountRef");
}

#[test]
fn an_entity_with_an_id_can_be_referenced() {
    let mut account = rutmf_account();
    assert!(reference_to(&account).is_none());
    account.id = Some("a1".into());
    account.href = Some("https://h/account/a1".into());
    let r = reference_to(&account).unwrap();
    assert_eq!(r.id, "a1");
    assert_eq!(r.href.as_deref(), Some("https://h/account/a1"));
    assert_eq!(r.at_type, "AccountRef");
}

fn rutmf_account() -> rutmf::account::Account {
    rutmf::account::Account {
        id: None,
        href: None,
        name: None,
        description: None,
        account_type: None,
        state: None,
        last_update: None,
        credit_limit: None,
        account_balance: None,
        account_relationship: None,
        contact: None,
        tax_exemption: None,
        related_party: None,
        bill_structure: None,
        default_payment_method: None,
        financial_account: None,
        payment_plan: None,
        payment_status: None,
        rating_type: None,
        referred_type: None,
        at_type: "BillingAccount".into(),
        at_base_type: None,
        at_schema_location: None,
        extensions: Extensions::new(),
    }
}

#[test]
fn an_account_knows_its_subclass() {
    let account = rutmf_account();
    assert_eq!(account.kind(), rutmf::account::AccountKind::Billing);
    let mut bare = rutmf_account();
    bare.at_type = String::new();
    assert_eq!(bare.kind(), rutmf::account::AccountKind::Base);
    assert_eq!(bare.class_name(), "Account");
}

#[test]
fn content_types_match_the_v5_spec() {
    let update = 5u8;
    let ops = [JsonPatchOp::remove("/x")];
    assert_eq!(Patch::Merge(&update).content_type(), "application/merge-patch+json");
    assert_eq!(Patch::Implicit(&update).content_type(), "application/json");
    assert_eq!(Patch::<u8>::Operations(&ops).content_type(), "application/json-patch+json");
    assert_eq!(Patch::<u8>::Query(&ops).content_type(), "application/json-patch-query+json");
    assert!(matches!(Patch::from_body(&update), Patch::Merge(_)));
    assert!(matches!(Patch::<u8>::from_ops(&ops), Patch::Operations(_)));
}

#[test]
fn each_api_lives_under_its_path_on_a_host() {
    assert_eq!(
        TmfApi::ProductCatalog.base_url_on("https://host//"),
        "https://host/tmf-api/productCatalogManagement/v5"
    );
    assert_eq!(TmfApi::Alarm.api_path(), "tmf-api/alarmManagement/v5");
    assert_eq!(TmfApi::Alarm.spec_version(), "5.0.1");
    assert_eq!(TmfApi::Account.spec_version(), "5.0.0");
}

#[test]
fn references_compare_member_by_member_and_extensions_as_a_set() {
    let a: Ref<Dummy> = Ref::new("1").with_name("n");
    let b: Ref<Dummy> = Ref::new("1").with_name("n");
    assert!(a.same_as(&b));
    assert!(!a.same_as(&Ref::new("1")));
    assert!(!a.same_as(&Ref::new("2").with_name("n")));

    let mut x = Extensions::new();
    x.insert("p".into(), "1".into());
    x.insert("q".into(), "2".into());
    let mut y = Extensions::new();
    y.insert("q".into(), "2".into());
    y.insert("p".into(), "1".into());
    assert!(x.same_members(&y));
    y.insert("q".into(), "3".into());
    assert!(!x.same_members(&y));
    y.remove("q");
    assert!(!x.same_members(&y));
    assert!(!y.same_members(&x));

    let mut c = a.duplicate();
    c.extensions = x;
    let mut d = b.duplicate();
    d.extensions = Extensions::new();
    assert!(!c.same_as(&d));
}

#[test]
fn only_a_declared_type_is_written_back() {
    let declared: Ref<Dummy> = Ref::new("1");
    assert_eq!(declared.written_type().as_deref(), Some("DummyRef"));
    let bare: Ref<Dummy> =
        Ref::from_parts("1".into(), None, None, None, None, None, None, None, Extensions::new());
    assert_eq!(bare.written_type(), None);
}

#[test]
fn an_account_holds_its_amounts_and_dates_typed() {
    let mut account = rutmf_account();
    account.credit_limit = Some(rutmf::model::Money::new("EUR", rust_decimal::Decimal::new(50000, 2)));
    account.last_update = rutmf::model::Timestamp::from_rfc3339("2024-05-01T10:00:00+02:00");
    account.account_balance = Some(vec![rutmf::account::AccountBalance {
        id: Some("b1".into()),
        balance_type: Some("deposit".into()),
        amount: Some(rutmf::model::Money::new("EUR", rust_decimal::Decimal::new(100, 0))),
        valid_for: None,
        at_type: "AccountBalance".into(),
        at_base_type: None,
        at_schema_location: None,
        extensions: Extensions::new(),
    }]);
    assert_eq!(account.credit_limit.as_ref().and_then(|m| m.value), Some(rust_decimal::Decimal::new(500, 0)));
    assert_eq!(account.last_update.map(|t| t.offset_seconds), Some(7200));
    assert_eq!(account.account_balance.as_ref().map(Vec::len), Some(1));
    assert_eq!(account.kind(), rutmf::account::AccountKind::Billing);
}

#[test]
fn a_duplicate_keeps_every_member() {
    let mut r: Ref<Dummy> = Ref::new("1").with_name("n").with_href("https://h/x/1").with_version("2");
    r.at_base_type = Some("EntityRef".into());
    r.at_schema_location = Some("https://schemas/x".into());
    r.extensions.insert("v".into(), "1".into());
    let d = r.duplicate();
    assert!(d.same_as(&r));
    assert_eq!(d.href.as_deref(), Some("https://h/x/1"));
    assert_eq!(d.at_schema_location.as_deref(), Some("https://schemas/x"));
}

#[test]
fn a_reference_resolves_on_its_own_origin_or_by_id() {
    let base = "https://api.example/tmf-api/x/v5";
    let by_id: Ref<Dummy> = Ref::new("42");
    assert_eq!(resolve_url(base, &by_id, "dummy").unwrap(), "https://api.example/tmf-api/x/v5/dummy/42");
    let same: Ref<Dummy> = Ref::new("42").with_href("https://api.example/tmf-api/x/v5/dummy/42");
    assert_eq!(resolve_url(base, &same, "dummy").unwrap(), "https://api.example/tmf-api/x/v5/dummy/42");
    let away: Ref<Dummy> = Ref::new("42").with_href("https://evil.example/steal");
    assert!(matches!(resolve_url(base, &away, "dummy"), Err(rutmf::api::Error::CrossOrigin { .. })));
    let relative: Ref<Dummy> = Ref::new("7").with_href("/dummy/7");
    assert_eq!(resolve_url(base, &relative, "dummy").unwrap(), "https://api.example/tmf-api/x/v5/dummy/7");
}

#[test]
fn a_constructed_reference_declares_its_type() {
    let r: Ref<Dummy> = Ref::new("1");
    assert_eq!(r.id, "1");
    assert_eq!(r.referred_type.as_deref(), Some("Dummy"));
    assert_eq!(r.at_type, "DummyRef");
    assert_eq!(r.written_type().as_deref(), Some("DummyRef"));
    assert!(r.href.is_none() && r.name.is_none() && r.extensions.is_empty());
}

#[test]
fn related_party_round_trips() {
    let reference: Ref<Party> = Ref::from_parts(
        "42".into(),
        None,
        None,
        None,
        Some("Individual".into()),
        Some("PartyRef".into()),
        None,
        None,
        Extensions::new(),
    );
    let rp = RelatedParty::new("customer", PartyOrPartyRole::classify(reference));
    assert_eq!(rp.role.as_deref(), Some("customer"));
    let target = rp.party_or_party_role.as_ref().unwrap();
    assert_eq!(target.id(), "42");
    assert_eq!(target.referred_type(), Some("Individual"));
    assert!(matches!(target, PartyOrPartyRole::Party(_)));
    assert_eq!(rp.at_type, "RelatedPartyRefOrPartyRoleRef");
}

#[test]
fn a_referenced_entity_carries_its_href() {
    let mut account = rutmf_account();
    account.id = Some("a9".into());
    account.href = Some("https://h/account/a9".into());
    let r = reference_to(&account).unwrap();
    assert_eq!(r.href.as_deref(), Some("https://h/account/a9"));
    assert_eq!(r.referred_type.as_deref(), Some("Account"));
    assert_eq!(r.at_type, "AccountRef");
    assert!(r.name.is_none() && r.extensions.is_empty());
}
