use rutmf::account::{Account, AccountKind};
use rutmf::alarm::{
    AckAlarm, AlarmTaskState, AlarmType, ClearAlarm, CommentAlarm, GroupAlarm, PerceivedSeverity,
    UnAckAlarm, UnGroupAlarm,
};
use rutmf::api::conditional::condition_on;
use rutmf::api::{EntityTag, Method, Tagged, TmfRequest};
use rutmf::api::{Error, Hub, HubCreate};
use rutmf::bill::{CustomerBillOnDemandState, CustomerBillState};
use rutmf::model::{EventKind, TmfType};

#[test]
fn each_subclass_is_recovered_from_its_discriminator() {
    for (name, kind, collection) in [
        ("Account", AccountKind::Base, "partyAccount"),
        ("BillingAccount", AccountKind::Billing, "billingAccount"),
        ("FinancialAccount", AccountKind::Financial, "financialAccount"),
        ("PartyAccount", AccountKind::Party, "partyAccount"),
        ("SettlementAccount", AccountKind::Settlement, "settlementAccount"),
    ] {
        assert_eq!(AccountKind::from_type_name(name), kind);
        assert_eq!(kind.collection(), collection);
    }
}

#[test]
fn every_account_kind_names_its_class() {
    for kind in AccountKind::all() {
        assert_eq!(AccountKind::from_type_name(kind.class_name()), kind);
    }
    assert_eq!(AccountKind::from_type_name("VendorAccount"), AccountKind::Other);
    assert_eq!(AccountKind::Other.class_name(), "Account");
    assert_eq!(AccountKind::Other.collection(), "partyAccount");
    assert_eq!(Account::TYPE_NAME, "Account");
}

#[test]
fn cleared_is_a_severity_not_a_state() {
    assert!(!PerceivedSeverity::Cleared.is_active());
    assert!(PerceivedSeverity::Critical.is_active());
}

#[test]
fn an_unknown_alarm_type_round_trips() {
    let t = AlarmType::from_wire("vendorSpecificAlarm");
    assert_eq!(t, AlarmType::Other("vendorSpecificAlarm".into()));
    assert_eq!(t.wire(), "vendorSpecificAlarm");
    assert_eq!(AlarmType::from_wire("qualityOfServiceAlarm"), AlarmType::QualityOfService);
}

#[test]
fn an_unknown_task_state_is_not_finished() {
    let unknown = AlarmTaskState::Other("awaitingApproval".into());
    assert!(!unknown.is_finished());
    assert!(!AlarmTaskState::InProgress.is_finished());
    assert!(AlarmTaskState::TerminatedWithError.is_finished());
    assert!(!AlarmTaskState::Cancel.is_finished());
    assert!(AlarmTaskState::Canceled.is_finished());
}

#[test]
fn task_states_round_trip_their_wire_spelling() {
    for (state, wire) in [
        (AlarmTaskState::InProgress, "inProgress"),
        (AlarmTaskState::TerminatedWithError, "terminatedWithError"),
        (AlarmTaskState::Canceled, "canceled"),
    ] {
        assert_eq!(state.wire(), wire);
        assert_eq!(AlarmTaskState::from_wire(wire), state);
    }
}

#[test]
fn every_task_declares_its_own_discriminator() {
    assert_eq!(AckAlarm::TYPE_NAME, "AckAlarm");
    assert_eq!(UnAckAlarm::TYPE_NAME, "UnAckAlarm");
    assert_eq!(ClearAlarm::TYPE_NAME, "ClearAlarm");
    assert_eq!(CommentAlarm::TYPE_NAME, "CommentAlarm");
    assert_eq!(GroupAlarm::TYPE_NAME, "GroupAlarm");
    assert_eq!(UnGroupAlarm::TYPE_NAME, "UnGroupAlarm");
}

#[test]
fn an_on_demand_request_polls_until_finished() {
    assert!(!CustomerBillOnDemandState::InProgress.is_finished());
    assert!(CustomerBillOnDemandState::Done.is_finished());
    assert!(
        !CustomerBillOnDemandState::Other("queued".into()).is_finished(),
        "an unrecognised state must not stop a poller"
    );
}

#[test]
fn only_a_settled_bill_is_paid_up() {
    assert!(!CustomerBillState::Settled.is_outstanding());
    assert!(CustomerBillState::PartiallyPaid.is_outstanding());
    assert!(CustomerBillState::Other("disputed".into()).is_outstanding());
    assert_eq!(CustomerBillState::from_wire("onHold"), CustomerBillState::OnHold);
}

#[test]
fn a_weak_validator_says_it_cannot_guard_a_write() {
    assert!(EntityTag("W/\"abc\"".to_owned()).is_weak());
    assert!(!EntityTag("\"abc\"".to_owned()).is_weak());
}

#[test]
fn a_read_carries_the_tag_the_server_issued() {
    let headers = vec![("ETag".to_owned(), Some("  \"abc123\" ".to_owned()))];
    assert_eq!(EntityTag::from_headers(&headers), Some(EntityTag("\"abc123\"".to_owned())));
    assert_eq!(EntityTag::from_headers(&vec![("etag".to_owned(), Some("  ".to_owned()))]), None);
    assert_eq!(EntityTag::from_headers(&Vec::new()), None);
}

#[test]
fn a_server_that_issues_no_tag_cannot_be_written_to_conditionally() {
    let held = Tagged::new(5u8, None);
    assert!(held.etag().is_none());
    assert!(matches!(held.precondition(), Err(Error::NoEntityTag)));
    let tagged = Tagged::new(5u8, Some(EntityTag("\"t\"".into())));
    assert_eq!(tagged.precondition().unwrap().as_str(), "\"t\"");
    assert_eq!(*tagged.resource(), 5);
    assert_eq!(tagged.into_inner(), 5);
}

#[test]
fn a_conditional_write_sends_the_tag_it_was_read_with() {
    let mut request = TmfRequest::new(Method::Patch, "https://h/productOffering/7655".to_owned());
    condition_on(&mut request, "if-match", &EntityTag("\"abc123\"".to_owned()));
    assert_eq!(request.headers, vec![("if-match".to_owned(), Some("\"abc123\"".to_owned()))]);
    let mut request = TmfRequest::new(Method::Get, "https://h/a".to_owned());
    condition_on(&mut request, "if-none-match", &EntityTag("bad\ntag".to_owned()));
    assert!(request.headers.is_empty(), "a tag that cannot be a header is not sent");
}

#[test]
fn a_listener_subscribes_to_the_events_it_names() {
    let all = HubCreate::to("https://me/cb");
    assert_eq!(all.callback, "https://me/cb");
    assert_eq!(all.query, None);
    assert_eq!(all.at_type, "Hub");
    let one = HubCreate::for_event("https://me/cb", "AlarmCreateEvent");
    assert_eq!(one.query.as_deref(), Some("eventType=AlarmCreateEvent"));
    let typed = HubCreate::for_resource::<Account>("https://me/cb", EventKind::StateChange);
    assert_eq!(typed.query.as_deref(), Some("eventType=AccountStateChangeEvent"));
    assert_eq!(Hub::TYPE_NAME, "Hub");
}

struct Offering;

impl TmfType for Offering {
    const TYPE_NAME: &'static str = "ProductOffering";
    const REF_TYPE_NAME: &'static str = "ProductOfferingRef";
}

#[test]
fn a_resource_subscription_is_the_event_subscription_it_names() {
    let h = HubCreate::for_resource::<Offering>("https://me/callback", EventKind::Create);
    let e = HubCreate::for_event("https://me/callback", "ProductOfferingCreateEvent");
    assert_eq!(h.query.as_deref(), Some("eventType=ProductOfferingCreateEvent"));
    assert_eq!(h.callback, e.callback);
    assert_eq!(h.query, e.query);
    assert_eq!(h.at_type, e.at_type);
    assert_eq!(h.at_base_type, None);
    assert_eq!(h.at_schema_location, None);
    assert_eq!(e.at_base_type, None);
    assert!(h.extensions.is_empty() && e.extensions.is_empty());
}

#[test]
fn an_alarm_task_can_be_referenced() {
    let ack = AckAlarm {
        id: Some("t-1".into()),
        href: Some("https://h/ackAlarm/t-1".into()),
        state: Some(AlarmTaskState::InProgress),
        alarm_pattern: None,
        acked_alarm: None,
        ack_time: None,
        ack_system_id: Some("noc".into()),
        ack_user_id: None,
        at_type: "AckAlarm".into(),
        at_base_type: None,
        at_schema_location: None,
        extensions: rutmf::model::Extensions::new(),
    };
    let r = rutmf::model::reference::reference_to(&ack).unwrap();
    assert_eq!(r.id, "t-1");
    assert_eq!(r.href.as_deref(), Some("https://h/ackAlarm/t-1"));
    let mut bare = ack.clone();
    bare.id = None;
    assert!(rutmf::model::reference::reference_to(&bare).is_none());
}

#[test]
fn an_unknown_severity_is_still_active() {
    let severity = PerceivedSeverity::from_wire("catastrophic");
    assert_eq!(severity, PerceivedSeverity::Other("catastrophic".into()));
    assert!(severity.is_active());
    assert_eq!(severity.wire(), "catastrophic");
}

#[test]
fn an_unknown_state_leaves_the_bill_outstanding() {
    let state = CustomerBillState::from_wire("disputed");
    assert_eq!(state, CustomerBillState::Other("disputed".into()));
    assert!(state.is_outstanding(), "writing off an unrecognised state is worse than asking");
    assert_eq!(state.wire(), "disputed");
}
