use rust_decimal::Decimal;
use rutmf::model::characteristic::{ElementShape, JsonShape};
use rutmf::model::{
    default_ref_type, default_type, Characteristic, CharacteristicValueSpecification, EventKind,
    Extensions, FeatureRelationshipType, ItemAction, Money, JsonPatchOp, Note, Party, PartyRole,
    PatchOperation, Payload, TaskState, TimePeriod, Timestamp, TmfError, TmfEvent, TmfType,
    ValueKind,
};

#[test]
fn a_type_names_the_same_kind_in_both_families() {
    for kind in ValueKind::all() {
        if let Some(name) = kind.characteristic_type() {
            assert_eq!(ValueKind::from_type_name(name), kind, "{name}");
        }
        let name = kind
            .value_specification_type()
            .expect("every kind is a value specification");
        assert_eq!(ValueKind::from_type_name(name), kind, "{name}");
    }
    assert_eq!(ValueKind::ValueMap.characteristic_type(), None, "no such class");
    assert_eq!(ValueKind::Other.value_specification_type(), None);
    assert_eq!(ValueKind::from_type_name("Characteristic"), ValueKind::Other);
}

#[test]
fn array_kinds_report_themselves_as_arrays() {
    assert!(ValueKind::StringArray.is_array());
    assert!(!ValueKind::String.is_array());
    assert!(!ValueKind::Other.is_array());
}

#[test]
fn a_nested_suffix_never_shadows_a_longer_one() {
    for kind in EventKind::all() {
        assert_eq!(
            EventKind::from_event_name(&kind.name_for::<TmfEvent>()),
            Some(kind),
            "{} is shadowed by a shorter suffix it ends with",
            kind.suffix()
        );
    }
    assert_eq!(
        EventKind::from_event_name("ServiceOperatingStatusChangeEvent"),
        Some(EventKind::OperatingStatusChange)
    );
    assert_eq!(
        EventKind::from_event_name("TroubleTicketStatusChangeEvent"),
        Some(EventKind::StatusChange)
    );
}

#[test]
fn the_longest_matching_suffix_wins() {
    assert_eq!(
        EventKind::from_event_name("CategoryAttributeValueChangeEvent"),
        Some(EventKind::AttributeValueChange)
    );
    assert_eq!(
        EventKind::from_event_name("CategoryStateChangeEvent"),
        Some(EventKind::StateChange)
    );
    assert_eq!(EventKind::from_event_name("SomethingElse"), None);
}

fn event(event_type: &str, members: &[(&str, &str)]) -> TmfEvent {
    let mut e = TmfEvent::empty();
    e.event_type = Some(event_type.to_owned());
    e.event = Some(Payload::Object(
        members.iter().map(|(k, v)| (k.to_string(), v.to_string())).collect(),
    ));
    e
}

#[test]
fn the_payload_member_is_derived_from_the_event_name() {
    let e = event("ProductOfferingCreateEvent", &[("productOffering", r#"{"id":"1"}"#)]);
    assert_eq!(e.kind(), Some(EventKind::Create));
    assert_eq!(e.resource_key().as_deref(), Some("productOffering"));
    assert_eq!(e.payload("productOffering").as_deref(), Some(r#"{"id":"1"}"#));
    assert_eq!(e.payload("nope"), None);
}

#[test]
fn a_single_member_payload_survives_a_misspelled_member() {
    let e = event("CancelProductOrderStateChangeEvent", &[("canccelProductOrder", "{}")]);
    assert_eq!(e.resource_key().as_deref(), Some("canccelProductOrder"));
}

#[test]
fn an_unrecognised_event_with_several_members_has_no_single_resource() {
    let e = event("VendorThing", &[("a", "{}"), ("b", "{}")]);
    assert_eq!(e.resource_key(), None);
    let mut other = TmfEvent::empty();
    other.event = Some(Payload::Other("[1]".to_owned()));
    assert_eq!(other.resource_key(), None);
    assert_eq!(TmfEvent::empty().kind(), None);
}

#[test]
fn a_batch_event_names_its_member() {
    let e = event("ProductBatchEvent", &[("other", "1"), ("product", "[]")]);
    assert_eq!(e.kind(), Some(EventKind::Batch));
    assert_eq!(e.resource_key().as_deref(), Some("product"));
}

#[test]
fn the_shape_of_a_value_decides_its_kind() {
    assert_eq!(ValueKind::of_value(&JsonShape::Text), ValueKind::String);
    assert_eq!(ValueKind::of_value(&JsonShape::Integer), ValueKind::Integer);
    assert_eq!(ValueKind::of_value(&JsonShape::Fractional), ValueKind::Number);
    assert_eq!(ValueKind::of_value(&JsonShape::Bool), ValueKind::Boolean);
    assert_eq!(ValueKind::of_value(&JsonShape::Object), ValueKind::Object);
    assert_eq!(ValueKind::of_value(&JsonShape::Null), ValueKind::Other);
    assert_eq!(
        ValueKind::of_value(&JsonShape::Array(vec![ElementShape::Text, ElementShape::Text])),
        ValueKind::StringArray
    );
    assert_eq!(ValueKind::of_value(&JsonShape::Array(vec![])), ValueKind::Other);
    assert_eq!(
        ValueKind::of_value(&JsonShape::Array(vec![ElementShape::Integer, ElementShape::Text])),
        ValueKind::Other
    );
    assert_eq!(ValueKind::of_value(&JsonShape::Array(vec![ElementShape::Array])), ValueKind::Other);
}

#[test]
fn a_built_characteristic_declares_its_subclass_not_the_base() {
    for (shape, class) in [
        (JsonShape::Text, "StringCharacteristic"),
        (JsonShape::Integer, "IntegerCharacteristic"),
        (JsonShape::Fractional, "NumberCharacteristic"),
        (JsonShape::Bool, "BooleanCharacteristic"),
        (JsonShape::Object, "ObjectCharacteristic"),
        (JsonShape::Array(vec![ElementShape::Text]), "StringArrayCharacteristic"),
    ] {
        let c = Characteristic::new("x", "v", &shape);
        assert_eq!(c.class_name(), class);
        assert_eq!(c.value.as_deref(), Some("v"));
    }
    let c = Characteristic::new("x", "null", &JsonShape::Null);
    assert_eq!(c.class_name(), "Characteristic");
    assert_eq!(c.value_kind(), ValueKind::Other);
}

#[test]
fn what_the_sender_said_and_what_the_value_is_stay_separable() {
    let mut odd = Characteristic::new("x", "\"12\"", &JsonShape::Text);
    odd.at_type = "IntegerCharacteristic".to_owned();
    assert_eq!(odd.value_kind(), ValueKind::Integer);
    let typed = odd.with_value_type("integer");
    assert_eq!(typed.value_type.as_deref(), Some("integer"));
    let spec = CharacteristicValueSpecification::new("{}", &JsonShape::Object);
    assert_eq!(spec.class_name(), "ObjectCharacteristicValueSpecification");
    assert_eq!(spec.value_kind(), ValueKind::Object);
    let unknown = CharacteristicValueSpecification::new("null", &JsonShape::Null);
    assert_eq!(unknown.value_kind(), ValueKind::Other);
}

#[test]
fn wire_names_round_trip() {
    for (state, wire) in [
        (TaskState::InProgress, "inProgress"),
        (TaskState::TerminatedWithError, "terminatedWithError"),
        (TaskState::Done, "done"),
    ] {
        assert_eq!(state.wire(), wire);
        assert_eq!(TaskState::from_wire(wire), state);
    }
    assert_eq!(TaskState::from_wire("awaitingApproval"), TaskState::Other("awaitingApproval".into()));
    assert_eq!(FeatureRelationshipType::MayInclude.wire(), "may include");
    assert_eq!(FeatureRelationshipType::from_wire("supersedes"), FeatureRelationshipType::Other("supersedes".into()));
    assert_eq!(ItemAction::from_wire("noChange"), ItemAction::NoChange);
    assert_eq!(PatchOperation::from_wire("move"), PatchOperation::Move);
    assert_eq!(PatchOperation::Other("x".into()).wire(), "x");
}

#[test]
fn task_states_finish_and_succeed() {
    for state in [TaskState::Done, TaskState::Rejected, TaskState::Cancelled, TaskState::TerminatedWithError] {
        assert!(state.is_finished());
    }
    for state in [TaskState::Acknowledged, TaskState::InProgress, TaskState::Other("x".into())] {
        assert!(!state.is_finished());
    }
    assert!(TaskState::Done.is_success());
    assert!(!TaskState::Cancelled.is_success());
}

#[test]
fn patch_operations_carry_their_operands() {
    let add = JsonPatchOp::add("/a", "1");
    assert_eq!(add.op, PatchOperation::Add);
    assert_eq!(add.value.as_deref(), Some("1"));
    let moved = JsonPatchOp::move_from("/a", "/b");
    assert_eq!(moved.op, PatchOperation::Move);
    assert_eq!(moved.from.as_deref(), Some("/a"));
    assert_eq!(moved.path, "/b");
    assert_eq!(JsonPatchOp::remove("/x").value, None);
    assert_eq!(JsonPatchOp::copy_from("/a", "/c").op, PatchOperation::Copy);
    assert_eq!(JsonPatchOp::replace("/a", "2").op, PatchOperation::Replace);
    assert_eq!(JsonPatchOp::test("/a", "2").op, PatchOperation::Test);
}

#[test]
fn extension_members_keep_their_order_and_their_last_value() {
    let mut x = Extensions::new();
    assert!(x.is_empty());
    assert_eq!(x.insert("b".into(), "1".into()), None);
    assert_eq!(x.insert("a".into(), "2".into()), None);
    assert_eq!(x.insert("b".into(), "3".into()), Some("1".to_owned()));
    assert_eq!(x.keys(), vec!["b".to_owned(), "a".to_owned()]);
    assert_eq!(x.get("b").as_deref(), Some("3"));
    assert_eq!(x.remove("b"), Some("3".to_owned()));
    assert_eq!(x.get("b"), None);
    assert_eq!(x.len(), 1);
    assert_eq!(x.clone().get("a").as_deref(), Some("2"));
}

#[test]
fn an_error_body_reports_its_status_and_whether_it_is_one() {
    let mut e = TmfError::empty();
    assert!(!e.is_populated());
    assert_eq!(e.class_name(), "Error");
    e.status = Some("404".into());
    assert_eq!(e.http_status(), Some(404));
    e.status = Some("not a number".into());
    assert_eq!(e.http_status(), None);
    e.status = Some("70000".into());
    assert_eq!(e.http_status(), None);
    e.reason = Some("gone".into());
    assert!(e.is_populated());
}

#[test]
fn class_names_come_from_the_class() {
    assert_eq!(default_type::<Party>(), "Party");
    assert_eq!(default_ref_type::<PartyRole>(), "PartyRoleRef");
    assert_eq!(Note::TYPE_NAME, "Note");
    let note = Note::new("hello");
    assert_eq!(note.text.as_deref(), Some("hello"));
    assert_eq!(note.at_type, "Note");
}

#[test]
fn move_and_copy_carry_a_source_pointer() {
    let moved = JsonPatchOp::move_from("/a", "/b");
    assert_eq!(moved.from.as_deref(), Some("/a"));
    assert_eq!(moved.path, "/b");
    assert!(moved.value.is_none());
}

#[test]
fn a_shape_that_names_no_subclass_leaves_the_base_class() {
    for (value, shape) in [
        ("null", JsonShape::Null),
        ("[]", JsonShape::Array(vec![])),
        ("[1,\"two\"]", JsonShape::Array(vec![ElementShape::Integer, ElementShape::Text])),
        ("[[1]]", JsonShape::Array(vec![ElementShape::Array])),
    ] {
        assert_eq!(Characteristic::new("x", value, &shape).class_name(), "Characteristic", "for {value}");
    }
}

#[test]
fn the_two_single_api_kinds_name_what_their_specifications_declare() {
    assert_eq!(EventKind::OperatingStatusChange.suffix(), "OperatingStatusChangeEvent");
    assert_eq!(EventKind::Batch.suffix(), "BatchEvent");
    let e = event("ProductBatchEvent", &[("product", r#"[{"id":"1"},{"id":"2"}]"#)]);
    assert_eq!(e.kind(), Some(EventKind::Batch));
    assert_eq!(e.resource_key().as_deref(), Some("product"));
    assert_eq!(e.payload("product").as_deref(), Some(r#"[{"id":"1"},{"id":"2"}]"#));
}

#[test]
fn a_task_state_answers_the_same_question_its_siblings_do() {
    for state in [TaskState::Done, TaskState::Rejected, TaskState::Cancelled, TaskState::TerminatedWithError] {
        assert!(state.is_finished(), "{state:?}");
    }
    for state in [TaskState::Acknowledged, TaskState::InProgress] {
        assert!(!state.is_finished(), "{state:?}");
    }
    let unknown = TaskState::from_wire("awaitingApproval");
    assert_eq!(unknown, TaskState::Other("awaitingApproval".into()));
    assert!(!unknown.is_finished());
    assert!(TaskState::Done.is_success());
    assert!(!TaskState::Cancelled.is_success());
}

fn utc(seconds: i64) -> Timestamp {
    Timestamp { seconds, nanos: 0, offset_seconds: 0 }
}

#[test]
fn time_period_containment_is_half_open() {
    let start = Timestamp::from_rfc3339("2020-01-01T00:00:00Z").unwrap();
    let end = Timestamp::from_rfc3339("2021-01-01T00:00:00Z").unwrap();
    let p = TimePeriod::between(start, end);
    assert!(p.contains(start));
    assert!(!p.contains(end));
}

#[test]
fn a_timestamp_keeps_the_offset_it_arrived_with() {
    let text = "2020-09-23T16:42:23-04:00";
    let t = Timestamp::from_rfc3339(text).unwrap();
    assert_eq!(t.offset_seconds, -4 * 3600);
    assert_eq!(t.seconds, 1_600_893_743);
    assert_eq!(t.to_rfc3339().as_deref(), Some(text));
    let z = Timestamp::from_rfc3339("2020-01-01T00:00:00Z").unwrap();
    assert_eq!((z.seconds, z.nanos, z.offset_seconds), (1_577_836_800, 0, 0));
    assert_eq!(z.to_rfc3339().as_deref(), Some("2020-01-01T00:00:00Z"));
    let fine = Timestamp::from_rfc3339("2020-01-01T00:00:00.25+01:00").unwrap();
    assert_eq!(fine.nanos, 250_000_000);
    assert_eq!(fine.to_rfc3339().as_deref(), Some("2020-01-01T00:00:00.250+01:00"));
    assert!(Timestamp::from_rfc3339("yesterday").is_none());
}

#[test]
fn the_same_instant_in_two_offsets_is_one_instant() {
    let west = Timestamp::from_rfc3339("2020-09-23T16:42:23-04:00").unwrap();
    let utc_form = Timestamp::from_rfc3339("2020-09-23T20:42:23Z").unwrap();
    assert!(west.not_after(&utc_form) && utc_form.not_after(&west));
    let p = TimePeriod::starting(utc_form);
    assert!(p.contains(west));
}

#[test]
fn open_bounds_are_unbounded_and_offsets_do_not_reorder_instants() {
    let start = utc(100);
    assert!(TimePeriod::starting(start).contains(utc(1_000_000)));
    assert!(!TimePeriod::starting(start).contains(utc(99)));
    assert!(TimePeriod::until(start).contains(utc(-5)));
    assert!(!TimePeriod::until(start).contains(start));
    // The same instant written four hours west is still the start.
    let west = Timestamp { seconds: 100, nanos: 0, offset_seconds: -4 * 3600 };
    assert!(TimePeriod::starting(start).contains(west));
    let earlier = Timestamp { seconds: 99, nanos: 999_999_999, offset_seconds: 0 };
    assert!(!TimePeriod::between(start, utc(200)).contains(earlier));
    assert!(earlier.not_after(&start));
    assert!(!start.not_after(&earlier));
}

#[test]
fn members_come_back_in_document_order_and_a_removal_closes_the_gap() {
    let mut x = Extensions::new();
    x.insert("c".into(), "1".into());
    x.insert("a".into(), "2".into());
    x.insert("b".into(), "3".into());
    x.insert("c".into(), "4".into());
    assert_eq!(
        x.iter(),
        vec![("c".to_owned(), "4".to_owned()), ("a".to_owned(), "2".to_owned()), ("b".to_owned(), "3".to_owned())]
    );
    x.remove("a");
    assert_eq!(x.keys(), vec!["c".to_owned(), "b".to_owned()]);
    assert_eq!(x.remove("zzz"), None);
    assert_eq!(x.len(), 2);
}

struct WidgetOperating;

impl TmfType for WidgetOperating {
    const TYPE_NAME: &'static str = "WidgetOperating";
    const REF_TYPE_NAME: &'static str = "WidgetOperatingRef";
}

#[test]
fn a_built_event_name_reads_back_as_its_kind_but_for_one_nesting() {
    assert_eq!(
        EventKind::from_event_name(&EventKind::StatusChange.name_for::<WidgetOperating>()),
        Some(EventKind::OperatingStatusChange)
    );
    for kind in EventKind::all() {
        if kind != EventKind::StatusChange {
            assert_eq!(EventKind::from_event_name(&kind.name_for::<WidgetOperating>()), Some(kind));
        }
    }
}

#[test]
fn money_holds_its_currency_and_a_decimal_amount() {
    let m = Money::new("EUR", Decimal::new(1234, 2));
    assert_eq!(m.unit.as_deref(), Some("EUR"));
    assert_eq!(m.value, Some(Decimal::new(1234, 2)));
    assert_eq!(m.value.unwrap().to_string(), "12.34");
    assert!(m.extensions.is_empty());
}

#[test]
fn an_instant_whose_local_time_chrono_cannot_hold_is_not_written() {
    let last = chrono::NaiveDateTime::MAX.and_utc().timestamp();
    let edge = Timestamp { seconds: last, nanos: 0, offset_seconds: 3600 };
    assert_eq!(edge.to_rfc3339(), None);
    let first = chrono::NaiveDateTime::MIN.and_utc().timestamp();
    let early = Timestamp { seconds: first, nanos: 0, offset_seconds: -3600 };
    assert_eq!(early.to_rfc3339(), None);
    let utc = Timestamp { seconds: last, nanos: 0, offset_seconds: 0 };
    assert!(utc.to_rfc3339().is_some());
}

#[test]
fn setting_the_value_type_keeps_every_other_member() {
    let mut c = Characteristic::new("speed", "100", &JsonShape::Integer);
    c.id = Some("c1".into());
    c.extensions.insert("x-vendor".into(), "true".into());
    let typed = c.with_value_type("integer");
    assert_eq!(typed.id.as_deref(), Some("c1"));
    assert_eq!(typed.value_type.as_deref(), Some("integer"));
    assert_eq!(typed.extensions.get("x-vendor").as_deref(), Some("true"));
    assert_eq!(typed.class_name(), "IntegerCharacteristic");
    let e = TmfEvent::empty();
    assert!(e.id.is_none() && e.event_id.is_none() && e.extensions.is_empty());
}

#[test]
fn known_value_subclass_maps_to_kind() {
    let v = CharacteristicValueSpecification::new("\"x\"", &JsonShape::Text);
    assert_eq!(v.at_type, "StringCharacteristicValueSpecification");
    assert_eq!(v.value_kind(), ValueKind::String);
    assert_eq!(ValueKind::String.value_specification_type(), Some(v.at_type.as_str()));
}

#[test]
fn unknown_value_subclass_parses_as_other() {
    let mut v = CharacteristicValueSpecification::new("1", &JsonShape::Integer);
    v.at_type = "VendorSpecialCharacteristicValueSpecification".to_owned();
    assert_eq!(v.value_kind(), ValueKind::Other);
    assert_eq!(v.class_name(), "VendorSpecialCharacteristicValueSpecification");
}

#[test]
fn a_body_without_the_mandatory_type_still_parses() {
    let mut e = TmfError::empty();
    e.code = Some("40001".into());
    e.reason = Some("nope".into());
    assert!(e.is_populated());
    assert_eq!(e.class_name(), "Error", "the class is known regardless");
    assert_eq!(e.at_type, "", "and relaying the body does not add a member to it");
}

#[test]
fn an_unrelated_json_object_is_not_a_populated_error() {
    let mut e = TmfError::empty();
    e.extensions.insert("detail".into(), "\"gateway timeout\"".into());
    assert!(!e.is_populated());
}

#[test]
fn unknown_members_survive() {
    let mut e = TmfError::empty();
    e.code = Some("40001".into());
    e.reason = Some("r".into());
    e.at_type = "Error".into();
    e.extensions.insert("x-trace".into(), "\"abc\"".into());
    assert_eq!(e.extensions.get("x-trace").as_deref(), Some("\"abc\""));
    assert_eq!(e.extensions.keys(), vec!["x-trace".to_owned()]);
}

#[test]
fn a_feature_relationship_type_keeps_the_space_the_wire_has() {
    let value = FeatureRelationshipType::MayInclude;
    assert_eq!(value.wire(), "may include");
    assert_eq!(FeatureRelationshipType::from_wire("may include"), value);
    let unknown = FeatureRelationshipType::from_wire("supersedes");
    assert_eq!(unknown, FeatureRelationshipType::Other("supersedes".into()));
    assert_eq!(unknown.wire(), "supersedes");
}

#[test]
fn remove_op_omits_value() {
    let op = JsonPatchOp::remove("/description");
    assert_eq!(op.op, PatchOperation::Remove);
    assert_eq!(op.path, "/description");
    assert!(op.value.is_none() && op.from.is_none());
}

#[test]
fn event_payload_is_absent_not_an_error() {
    let mut event = TmfEvent::empty();
    event.event_type = Some("X".into());
    assert!(event.payload("nope").is_none());
}
