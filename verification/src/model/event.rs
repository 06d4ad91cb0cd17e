//! Notifications: the event envelope and the kinds of change it reports.
use vstd::prelude::*;
use crate::model::extensible::{Extensions, TmfType};
use crate::text::{chars_of, ends_with, lower, push_str, range_ends_with, str_eq, string_of_range, to_lower};

verus! {

/// What an event reports, named by the suffix of its `eventType`.
#[derive(Debug, Clone, Copy, PartialEq, Eq, Structural)]
pub enum EventKind {
    /// A resource was created.
    Create,
    /// A resource was deleted.
    Delete,
    /// A resource changed state.
    StateChange,
    /// A resource attribute changed.
    AttributeValueChange,
    /// A resource needs more information.
    InformationRequired,
    /// A resource reported an error.
    ErrorMessage,
    /// A resource is in jeopardy.
    JeopardyAlert,
    /// A resource reached a milestone.
    Milestone,
    /// A resource was resolved.
    Resolved,
    /// A resource changed status.
    StatusChange,
    /// A resource changed operating status.
    OperatingStatusChange,
    /// Several resources changed at once.
    Batch,
}

/// The suffix an event name of each kind ends with.
pub open spec fn suffix_of(kind: EventKind) -> Seq<char> {
    match kind {
        EventKind::Create => "CreateEvent"@,
        EventKind::Delete => "DeleteEvent"@,
        EventKind::StateChange => "StateChangeEvent"@,
        EventKind::AttributeValueChange => "AttributeValueChangeEvent"@,
        EventKind::InformationRequired => "InformationRequiredEvent"@,
        EventKind::ErrorMessage => "ErrorMessageEvent"@,
        EventKind::JeopardyAlert => "JeopardyAlertEvent"@,
        EventKind::Milestone => "MilestoneEvent"@,
        EventKind::Resolved => "ResolvedEvent"@,
        EventKind::StatusChange => "StatusChangeEvent"@,
        EventKind::OperatingStatusChange => "OperatingStatusChangeEvent"@,
        EventKind::Batch => "BatchEvent"@,
    }
}

/// The kinds in the order they are tried against an event name: longest
/// suffix first, so that a suffix nested in a longer one never shadows it.
pub open spec fn by_length() -> Seq<EventKind> {
    seq![
        EventKind::OperatingStatusChange,
        EventKind::AttributeValueChange,
        EventKind::InformationRequired,
        EventKind::JeopardyAlert,
        EventKind::StatusChange,
        EventKind::ErrorMessage,
        EventKind::StateChange,
        EventKind::Milestone,
        EventKind::Resolved,
        EventKind::Create,
        EventKind::Delete,
        EventKind::Batch,
    ]
}

/// Where a kind stands in [`by_length`].
pub open spec fn rank(kind: EventKind) -> int {
    match kind {
        EventKind::OperatingStatusChange => 0,
        EventKind::AttributeValueChange => 1,
        EventKind::InformationRequired => 2,
        EventKind::JeopardyAlert => 3,
        EventKind::StatusChange => 4,
        EventKind::ErrorMessage => 5,
        EventKind::StateChange => 6,
        EventKind::Milestone => 7,
        EventKind::Resolved => 8,
        EventKind::Create => 9,
        EventKind::Delete => 10,
        EventKind::Batch => 11,
    }
}

/// The first kind from position `i` of [`by_length`] whose suffix `name`
/// ends with.
pub open spec fn match_from(name: Seq<char>, i: nat) -> Option<EventKind>
    decreases 12 - i,
{
    if i >= 12 {
        None
    } else if ends_with(name, suffix_of(by_length()[i as int])) {
        Some(by_length()[i as int])
    } else {
        match_from(name, i + 1)
    }
}

/// The kind an event name reports: the one whose suffix it ends with,
/// the longest such suffix winning.
pub open spec fn kind_of_name(name: Seq<char>) -> Option<EventKind> {
    match_from(name, 0)
}

/// The suffixes, longest first, never grow along [`by_length`].
proof fn lemma_by_length_sorted()
    ensures
        by_length().len() == 12,
        forall|a: int, b: int|
            0 <= a < b < 12 ==> suffix_of(by_length()[a]).len() >= suffix_of(by_length()[b]).len(),
        forall|k: EventKind| 0 <= #[trigger] rank(k) < 12 && by_length()[rank(k)] == k,
{
    reveal_strlit("CreateEvent");
    reveal_strlit("DeleteEvent");
    reveal_strlit("StateChangeEvent");
    reveal_strlit("AttributeValueChangeEvent");
    reveal_strlit("InformationRequiredEvent");
    reveal_strlit("ErrorMessageEvent");
    reveal_strlit("JeopardyAlertEvent");
    reveal_strlit("MilestoneEvent");
    reveal_strlit("ResolvedEvent");
    reveal_strlit("StatusChangeEvent");
    reveal_strlit("OperatingStatusChangeEvent");
    reveal_strlit("BatchEvent");
    assert(by_length()[9] == EventKind::Create);
    assert(by_length()[10] == EventKind::Delete);
    assert(by_length()[6] == EventKind::StateChange);
    assert(by_length()[1] == EventKind::AttributeValueChange);
    assert(by_length()[2] == EventKind::InformationRequired);
    assert(by_length()[5] == EventKind::ErrorMessage);
    assert(by_length()[3] == EventKind::JeopardyAlert);
    assert(by_length()[7] == EventKind::Milestone);
    assert(by_length()[8] == EventKind::Resolved);
    assert(by_length()[4] == EventKind::StatusChange);
    assert(by_length()[0] == EventKind::OperatingStatusChange);
    assert(by_length()[11] == EventKind::Batch);
}

/// What [`match_from`] finds: the first match from `i` on, and no earlier
/// one.
proof fn lemma_match_from(name: Seq<char>, i: nat)
    requires
        i <= 12,
    ensures
        match match_from(name, i) {
            Some(k) => exists|j: int|
                i <= j < 12 && by_length()[j] == k && ends_with(name, suffix_of(k)) && forall|l: int|
                    i <= l < j ==> !ends_with(name, #[trigger] suffix_of(by_length()[l])),
            None => forall|l: int| i <= l < 12 ==> !ends_with(name, #[trigger] suffix_of(by_length()[l])),
        },
    decreases 12 - i,
{
    if i < 12 && !ends_with(name, suffix_of(by_length()[i as int])) {
        lemma_match_from(name, i + 1);
    }
}

/// The longest matching suffix wins: the kind an event name is read as has
/// a suffix the name ends with, and no kind has a longer one that it ends
/// with too; a name no kind's suffix ends reads as no kind.
pub proof fn lemma_longest_suffix_wins(name: Seq<char>)
    ensures
        match kind_of_name(name) {
            Some(k) => ends_with(name, suffix_of(k)) && forall|j: EventKind|
                ends_with(name, #[trigger] suffix_of(j)) ==> suffix_of(j).len() <= suffix_of(k).len(),
            None => forall|j: EventKind| !ends_with(name, #[trigger] suffix_of(j)),
        },
{
    lemma_by_length_sorted();
    lemma_match_from(name, 0);
    match kind_of_name(name) {
        Some(k) => {
            let w = choose|w: int|
                0 <= w < 12 && by_length()[w] == k && ends_with(name, suffix_of(k)) && forall|l: int|
                    0 <= l < w ==> !ends_with(name, #[trigger] suffix_of(by_length()[l]));
            assert forall|j: EventKind| ends_with(name, #[trigger] suffix_of(j)) implies suffix_of(
                j,
            ).len() <= suffix_of(k).len() by {
                let p = rank(j);
                if p < w {
                    assert(!ends_with(name, suffix_of(by_length()[p])));
                }
            }
        },
        None => {
            assert forall|j: EventKind| !ends_with(name, #[trigger] suffix_of(j)) by {
                let p = rank(j);
                assert(!ends_with(name, suffix_of(by_length()[p])));
            }
        },
    }
}

/// Of two different kinds, the suffix of one ends with the suffix of the
/// other only where an operating-status change nests a status change.
proof fn lemma_suffixes_nest_once(j: EventKind, k: EventKind)
    requires
        j != k,
        ends_with(suffix_of(j), suffix_of(k)),
    ensures
        j == EventKind::OperatingStatusChange && k == EventKind::StatusChange,
{
    reveal_strlit("CreateEvent");
    reveal_strlit("DeleteEvent");
    reveal_strlit("StateChangeEvent");
    reveal_strlit("AttributeValueChangeEvent");
    reveal_strlit("InformationRequiredEvent");
    reveal_strlit("ErrorMessageEvent");
    reveal_strlit("JeopardyAlertEvent");
    reveal_strlit("MilestoneEvent");
    reveal_strlit("ResolvedEvent");
    reveal_strlit("StatusChangeEvent");
    reveal_strlit("OperatingStatusChangeEvent");
    reveal_strlit("BatchEvent");
    let a = suffix_of(j);
    let b = suffix_of(k);
    assert forall|t: int| 0 <= t < b.len() implies #[trigger] b[t] == a[a.len() - b.len() + t] by {
        assert(a.subrange(a.len() - b.len(), a.len() as int)[t] == a[a.len() - b.len() + t]);
    }
    match (j, k) {
        (EventKind::Create, EventKind::Delete) => {
            assert(suffix_of(j)[3] != suffix_of(k)[3]);
        },
        (EventKind::Create, EventKind::Batch) => {
            assert(suffix_of(j)[5] != suffix_of(k)[4]);
        },
        (EventKind::Delete, EventKind::Create) => {
            assert(suffix_of(j)[3] != suffix_of(k)[3]);
        },
        (EventKind::Delete, EventKind::Batch) => {
            assert(suffix_of(j)[5] != suffix_of(k)[4]);
        },
        (EventKind::StateChange, EventKind::Create) => {
            assert(suffix_of(j)[9] != suffix_of(k)[4]);
        },
        (EventKind::StateChange, EventKind::Delete) => {
            assert(suffix_of(j)[9] != suffix_of(k)[4]);
        },
        (EventKind::StateChange, EventKind::Milestone) => {
            assert(suffix_of(j)[9] != suffix_of(k)[7]);
        },
        (EventKind::StateChange, EventKind::Resolved) => {
            assert(suffix_of(j)[10] != suffix_of(k)[7]);
        },
        (EventKind::StateChange, EventKind::Batch) => {
            assert(suffix_of(j)[10] != suffix_of(k)[4]);
        },
        (EventKind::AttributeValueChange, EventKind::Create) => {
            assert(suffix_of(j)[18] != suffix_of(k)[4]);
        },
        (EventKind::AttributeValueChange, EventKind::Delete) => {
            assert(suffix_of(j)[18] != suffix_of(k)[4]);
        },
        (EventKind::AttributeValueChange, EventKind::StateChange) => {
            assert(suffix_of(j)[12] != suffix_of(k)[3]);
        },
        (EventKind::AttributeValueChange, EventKind::InformationRequired) => {
            assert(suffix_of(j)[19] != suffix_of(k)[18]);
        },
        (EventKind::AttributeValueChange, EventKind::ErrorMessage) => {
            assert(suffix_of(j)[17] != suffix_of(k)[9]);
        },
        (EventKind::AttributeValueChange, EventKind::JeopardyAlert) => {
            assert(suffix_of(j)[19] != suffix_of(k)[12]);
        },
        (EventKind::AttributeValueChange, EventKind::Milestone) => {
            assert(suffix_of(j)[18] != suffix_of(k)[7]);
        },
        (EventKind::AttributeValueChange, EventKind::Resolved) => {
            assert(suffix_of(j)[19] != suffix_of(k)[7]);
        },
        (EventKind::AttributeValueChange, EventKind::StatusChange) => {
            assert(suffix_of(j)[13] != suffix_of(k)[5]);
        },
        (EventKind::AttributeValueChange, EventKind::Batch) => {
            assert(suffix_of(j)[19] != suffix_of(k)[4]);
        },
        (EventKind::InformationRequired, EventKind::Create) => {
            assert(suffix_of(j)[18] != suffix_of(k)[5]);
        },
        (EventKind::InformationRequired, EventKind::Delete) => {
            assert(suffix_of(j)[18] != suffix_of(k)[5]);
        },
        (EventKind::InformationRequired, EventKind::StateChange) => {
            assert(suffix_of(j)[18] != suffix_of(k)[10]);
        },
        (EventKind::InformationRequired, EventKind::ErrorMessage) => {
            assert(suffix_of(j)[18] != suffix_of(k)[11]);
        },
        (EventKind::InformationRequired, EventKind::JeopardyAlert) => {
            assert(suffix_of(j)[18] != suffix_of(k)[12]);
        },
        (EventKind::InformationRequired, EventKind::Milestone) => {
            assert(suffix_of(j)[18] != suffix_of(k)[8]);
        },
        (EventKind::InformationRequired, EventKind::Resolved) => {
            assert(suffix_of(j)[16] != suffix_of(k)[5]);
        },
        (EventKind::InformationRequired, EventKind::StatusChange) => {
            assert(suffix_of(j)[18] != suffix_of(k)[11]);
        },
        (EventKind::InformationRequired, EventKind::Batch) => {
            assert(suffix_of(j)[18] != suffix_of(k)[4]);
        },
        (EventKind::ErrorMessage, EventKind::Create) => {
            assert(suffix_of(j)[10] != suffix_of(k)[4]);
        },
        (EventKind::ErrorMessage, EventKind::Delete) => {
            assert(suffix_of(j)[10] != suffix_of(k)[4]);
        },
        (EventKind::ErrorMessage, EventKind::StateChange) => {
            assert(suffix_of(j)[9] != suffix_of(k)[8]);
        },
        (EventKind::ErrorMessage, EventKind::Milestone) => {
            assert(suffix_of(j)[10] != suffix_of(k)[7]);
        },
        (EventKind::ErrorMessage, EventKind::Resolved) => {
            assert(suffix_of(j)[11] != suffix_of(k)[7]);
        },
        (EventKind::ErrorMessage, EventKind::StatusChange) => {
            assert(suffix_of(j)[9] != suffix_of(k)[9]);
        },
        (EventKind::ErrorMessage, EventKind::Batch) => {
            assert(suffix_of(j)[11] != suffix_of(k)[4]);
        },
        (EventKind::JeopardyAlert, EventKind::Create) => {
            assert(suffix_of(j)[12] != suffix_of(k)[5]);
        },
        (EventKind::JeopardyAlert, EventKind::Delete) => {
            assert(suffix_of(j)[12] != suffix_of(k)[5]);
        },
        (EventKind::JeopardyAlert, EventKind::StateChange) => {
            assert(suffix_of(j)[12] != suffix_of(k)[10]);
        },
        (EventKind::JeopardyAlert, EventKind::ErrorMessage) => {
            assert(suffix_of(j)[12] != suffix_of(k)[11]);
        },
        (EventKind::JeopardyAlert, EventKind::Milestone) => {
            assert(suffix_of(j)[12] != suffix_of(k)[8]);
        },
        (EventKind::JeopardyAlert, EventKind::Resolved) => {
            assert(suffix_of(j)[12] != suffix_of(k)[7]);
        },
        (EventKind::JeopardyAlert, EventKind::StatusChange) => {
            assert(suffix_of(j)[12] != suffix_of(k)[11]);
        },
        (EventKind::JeopardyAlert, EventKind::Batch) => {
            assert(suffix_of(j)[12] != suffix_of(k)[4]);
        },
        (EventKind::Milestone, EventKind::Create) => {
            assert(suffix_of(j)[7] != suffix_of(k)[4]);
        },
        (EventKind::Milestone, EventKind::Delete) => {
            assert(suffix_of(j)[7] != suffix_of(k)[4]);
        },
        (EventKind::Milestone, EventKind::Resolved) => {
            assert(suffix_of(j)[8] != suffix_of(k)[7]);
        },
        (EventKind::Milestone, EventKind::Batch) => {
            assert(suffix_of(j)[8] != suffix_of(k)[4]);
        },
        (EventKind::Resolved, EventKind::Create) => {
            assert(suffix_of(j)[7] != suffix_of(k)[5]);
        },
        (EventKind::Resolved, EventKind::Delete) => {
            assert(suffix_of(j)[7] != suffix_of(k)[5]);
        },
        (EventKind::Resolved, EventKind::Batch) => {
            assert(suffix_of(j)[7] != suffix_of(k)[4]);
        },
        (EventKind::StatusChange, EventKind::Create) => {
            assert(suffix_of(j)[10] != suffix_of(k)[4]);
        },
        (EventKind::StatusChange, EventKind::Delete) => {
            assert(suffix_of(j)[10] != suffix_of(k)[4]);
        },
        (EventKind::StatusChange, EventKind::StateChange) => {
            assert(suffix_of(j)[5] != suffix_of(k)[4]);
        },
        (EventKind::StatusChange, EventKind::ErrorMessage) => {
            assert(suffix_of(j)[9] != suffix_of(k)[9]);
        },
        (EventKind::StatusChange, EventKind::Milestone) => {
            assert(suffix_of(j)[10] != suffix_of(k)[7]);
        },
        (EventKind::StatusChange, EventKind::Resolved) => {
            assert(suffix_of(j)[11] != suffix_of(k)[7]);
        },
        (EventKind::StatusChange, EventKind::Batch) => {
            assert(suffix_of(j)[11] != suffix_of(k)[4]);
        },
        (EventKind::OperatingStatusChange, EventKind::Create) => {
            assert(suffix_of(j)[19] != suffix_of(k)[4]);
        },
        (EventKind::OperatingStatusChange, EventKind::Delete) => {
            assert(suffix_of(j)[19] != suffix_of(k)[4]);
        },
        (EventKind::OperatingStatusChange, EventKind::StateChange) => {
            assert(suffix_of(j)[14] != suffix_of(k)[4]);
        },
        (EventKind::OperatingStatusChange, EventKind::AttributeValueChange) => {
            assert(suffix_of(j)[14] != suffix_of(k)[13]);
        },
        (EventKind::OperatingStatusChange, EventKind::InformationRequired) => {
            assert(suffix_of(j)[20] != suffix_of(k)[18]);
        },
        (EventKind::OperatingStatusChange, EventKind::ErrorMessage) => {
            assert(suffix_of(j)[18] != suffix_of(k)[9]);
        },
        (EventKind::OperatingStatusChange, EventKind::JeopardyAlert) => {
            assert(suffix_of(j)[20] != suffix_of(k)[12]);
        },
        (EventKind::OperatingStatusChange, EventKind::Milestone) => {
            assert(suffix_of(j)[19] != suffix_of(k)[7]);
        },
        (EventKind::OperatingStatusChange, EventKind::Resolved) => {
            assert(suffix_of(j)[20] != suffix_of(k)[7]);
        },
        (EventKind::OperatingStatusChange, EventKind::Batch) => {
            assert(suffix_of(j)[20] != suffix_of(k)[4]);
        },
        _ => {},
    }
}

/// An event name built from a class name and a kind reads back as that
/// kind, with one exception: a status change of a class whose name ends in
/// `Operating` reads as an operating-status change.
pub proof fn lemma_event_name_reads_back(class: Seq<char>, k: EventKind)
    ensures
        kind_of_name(class + suffix_of(k)) == (if k == EventKind::StatusChange && ends_with(
            class,
            "Operating"@,
        ) {
            Some(EventKind::OperatingStatusChange)
        } else {
            Some(k)
        }),
{
    reveal_strlit("CreateEvent");
    reveal_strlit("DeleteEvent");
    reveal_strlit("StateChangeEvent");
    reveal_strlit("AttributeValueChangeEvent");
    reveal_strlit("InformationRequiredEvent");
    reveal_strlit("ErrorMessageEvent");
    reveal_strlit("JeopardyAlertEvent");
    reveal_strlit("MilestoneEvent");
    reveal_strlit("ResolvedEvent");
    reveal_strlit("StatusChangeEvent");
    reveal_strlit("OperatingStatusChangeEvent");
    reveal_strlit("BatchEvent");
    reveal_strlit("Operating");
    let s = suffix_of(k);
    let name = class + s;
    let n = name.len() as int;
    assert(name.subrange(n - s.len(), n) =~= s);
    lemma_longest_suffix_wins(name);
    let found = kind_of_name(name)->0;
    let f = suffix_of(found);
    assert(f.len() >= s.len());
    assert(name.subrange(n - f.len(), n) == f);
    if k == EventKind::StatusChange && ends_with(class, "Operating"@) {
        let o = suffix_of(EventKind::OperatingStatusChange);
        assert(name.subrange(n - o.len(), n) =~= o) by {
            assert forall|t: int| 0 <= t < o.len() implies #[trigger] name.subrange(
                n - o.len(),
                n,
            )[t] == o[t] by {
                if t < 9 {
                    assert(class.subrange(class.len() - 9, class.len() as int)[t] == "Operating"@[t]);
                } else {
                    assert(name[n - o.len() + t] == s[t - 9]);
                }
            }
        }
        assert(f.len() >= o.len());
    } else if found != k {
        assert(f.subrange(f.len() - s.len(), f.len() as int) =~= s) by {
            assert forall|t: int| 0 <= t < s.len() implies #[trigger] f.subrange(
                f.len() - s.len(),
                f.len() as int,
            )[t] == s[t] by {
                assert(name.subrange(n - f.len(), n)[f.len() - s.len() + t] == name[n - s.len() + t]);
                assert(name.subrange(n - s.len(), n)[t] == name[n - s.len() + t]);
            }
        }
        lemma_suffixes_nest_once(found, k);
        assert(class.subrange(class.len() - 9, class.len() as int) =~= "Operating"@) by {
            assert forall|t: int| 0 <= t < 9 implies #[trigger] class.subrange(
                class.len() - 9,
                class.len() as int,
            )[t] == "Operating"@[t] by {
                assert(name.subrange(n - f.len(), n)[t] == name[n - f.len() + t]);
                assert(name[n - f.len() + t] == class[class.len() - 9 + t]);
            }
        }
    }
}

impl EventKind {
    /// The suffix an event name of this kind ends with.
    pub fn suffix(self) -> (r: &'static str)
        ensures
            r@ == suffix_of(self),
    {
        match self {
            EventKind::Create => "CreateEvent",
            EventKind::Delete => "DeleteEvent",
            EventKind::StateChange => "StateChangeEvent",
            EventKind::AttributeValueChange => "AttributeValueChangeEvent",
            EventKind::InformationRequired => "InformationRequiredEvent",
            EventKind::ErrorMessage => "ErrorMessageEvent",
            EventKind::JeopardyAlert => "JeopardyAlertEvent",
            EventKind::Milestone => "MilestoneEvent",
            EventKind::Resolved => "ResolvedEvent",
            EventKind::StatusChange => "StatusChangeEvent",
            EventKind::OperatingStatusChange => "OperatingStatusChangeEvent",
            EventKind::Batch => "BatchEvent",
        }
    }

    /// Every kind, in declaration order.
    pub fn all() -> (r: Vec<EventKind>)
        ensures
            r@ == seq![
                EventKind::Create,
                EventKind::Delete,
                EventKind::StateChange,
                EventKind::AttributeValueChange,
                EventKind::InformationRequired,
                EventKind::ErrorMessage,
                EventKind::JeopardyAlert,
                EventKind::Milestone,
                EventKind::Resolved,
                EventKind::StatusChange,
                EventKind::OperatingStatusChange,
                EventKind::Batch,
            ],
    {
        vec![
            EventKind::Create,
            EventKind::Delete,
            EventKind::StateChange,
            EventKind::AttributeValueChange,
            EventKind::InformationRequired,
            EventKind::ErrorMessage,
            EventKind::JeopardyAlert,
            EventKind::Milestone,
            EventKind::Resolved,
            EventKind::StatusChange,
            EventKind::OperatingStatusChange,
            EventKind::Batch,
        ]
    }

    /// The event name for this kind of change to resources of class `T`,
    /// such as `ProductOfferingCreateEvent`.
    pub fn name_for<T: TmfType>(self) -> (r: String)
        ensures
            r@ == T::TYPE_NAME@ + suffix_of(self),
    {
        let mut s = T::TYPE_NAME.to_owned();
        push_str(&mut s, self.suffix());
        s
    }

    /// The kind an event name reports, trying the longest suffixes first so
    /// that `ServiceOperatingStatusChangeEvent` reads as an operating-status
    /// change rather than a status change.
    pub fn from_event_name(name: &str) -> (r: Option<EventKind>)
        ensures
            r == kind_of_name(name@),
    {
        let order: [EventKind; 12] = [
            EventKind::OperatingStatusChange,
            EventKind::AttributeValueChange,
            EventKind::InformationRequired,
            EventKind::JeopardyAlert,
            EventKind::StatusChange,
            EventKind::ErrorMessage,
            EventKind::StateChange,
            EventKind::Milestone,
            EventKind::Resolved,
            EventKind::Create,
            EventKind::Delete,
            EventKind::Batch,
        ];
        assert(order@ =~= by_length());
        let mut i: usize = 0;
        while i < 12
            invariant
                i <= 12,
                order@ == by_length(),
                kind_of_name(name@) == match_from(name@, i as nat),
            decreases 12 - i,
        {
            let k = order[i];
            if crate::text::str_ends_with(name, k.suffix()) {
                return Some(k);
            }
            i = i + 1;
        }
        None
    }
}

/// What an event carries under `event`: a JSON object's members, each with
/// its value as JSON text, in the order the object holds them; or any other
/// JSON value, as its text.
#[derive(Debug, Clone)]
pub enum Payload {
    /// A JSON object.
    Object(Vec<(String, String)>),
    /// Any other JSON value.
    Other(String),
}

/// The names of an object payload's members, in order.
pub open spec fn member_names(members: Seq<(String, String)>) -> Seq<Seq<char>> {
    Seq::new(members.len(), |i: int| members[i].0@)
}

/// The member names of an object payload; `None` for any other payload.
pub open spec fn payload_keys(event: Option<Payload>) -> Option<Seq<Seq<char>>> {
    match event {
        Some(Payload::Object(members)) => Some(member_names(members@)),
        _ => None,
    }
}

/// The value of the first member named `key` from position `i` on.
pub open spec fn member_from(members: Seq<(String, String)>, key: Seq<char>, i: int) -> Option<
    Seq<char>,
>
    decreases members.len() - i,
{
    if i < 0 || i >= members.len() {
        None
    } else if members[i].0@ == key {
        Some(members[i].1@)
    } else {
        member_from(members, key, i + 1)
    }
}

/// The JSON text of the payload member `key`, when the payload is an
/// object holding it.
pub open spec fn payload_value(event: Option<Payload>, key: Seq<char>) -> Option<Seq<char>> {
    match event {
        Some(Payload::Object(members)) => member_from(members@, key, 0),
        _ => None,
    }
}

/// `s` with its first character lowercased when it is an ASCII capital.
pub open spec fn lower_first(s: Seq<char>) -> Seq<char> {
    if s.len() == 0 {
        s
    } else {
        seq![lower(s[0])] + s.drop_first()
    }
}

/// The notification envelope every TM Forum API sends to a listener.
#[derive(Debug, Clone)]
pub struct TmfEvent {
    /// Identifier of the event resource.
    pub id: Option<String>,
    /// Reference of the event resource.
    pub href: Option<String>,
    /// Identifier of the notification.
    pub event_id: Option<String>,
    /// The event name, such as `ProductOfferingCreateEvent`.
    pub event_type: Option<String>,
    /// When the event was sent.
    pub event_time: Option<String>,
    /// When the change happened.
    pub time_occurred: Option<String>,
    /// Correlates related events.
    pub correlation_id: Option<String>,
    /// The domain of the event.
    pub domain: Option<String>,
    /// A title.
    pub title: Option<String>,
    /// A description.
    pub description: Option<String>,
    /// A priority.
    pub priority: Option<String>,
    /// The payload: the changed resource under its member name.
    pub event: Option<Payload>,
    /// Analytic characteristics, as JSON text.
    pub analytic_characteristic: Option<String>,
    /// Related parties, as JSON text.
    pub related_party: Option<String>,
    /// The source reference, as JSON text.
    pub source: Option<String>,
    /// The reporting system reference, as JSON text.
    pub reporting_system: Option<String>,
    /// `@type`; empty when not given.
    pub at_type: String,
    /// `@baseType`.
    pub at_base_type: Option<String>,
    /// `@schemaLocation`.
    pub at_schema_location: Option<String>,
    /// Members beyond those above.
    pub extensions: Extensions,
}

impl TmfType for TmfEvent {
    const TYPE_NAME: &'static str = "Event";
    const REF_TYPE_NAME: &'static str = "EntityRef";
}

/// The event name an envelope declares: `eventType`, else its class.
pub open spec fn declared_name(e: TmfEvent) -> Seq<char> {
    match e.event_type {
        Some(t) => t@,
        None => if e.at_type@.len() == 0 {
            "Event"@
        } else {
            e.at_type@
        },
    }
}

/// The member of an object payload that holds the changed resource.
///
/// The event name says which: `ProductOfferingCreateEvent` carries
/// `productOffering`. A payload with exactly one member is read as that
/// member whatever it is called, so a misspelt member still arrives.
pub open spec fn resource_key_spec(name: Seq<char>, keys: Seq<Seq<char>>) -> Option<Seq<char>> {
    let derived = match kind_of_name(name) {
        Some(k) => Some(lower_first(name.take(name.len() - suffix_of(k).len()))),
        None => None,
    };
    if derived matches Some(d) && keys.contains(d) {
        derived
    } else if keys.len() == 1 {
        Some(keys[0])
    } else {
        None
    }
}

impl TmfEvent {
    /// An envelope with nothing set.
    pub fn empty() -> (r: Self)
        ensures
            r.id is None,
            r.href is None,
            r.event_id is None,
            r.event_type is None,
            r.event_time is None,
            r.time_occurred is None,
            r.correlation_id is None,
            r.domain is None,
            r.title is None,
            r.description is None,
            r.priority is None,
            r.event is None,
            r.analytic_characteristic is None,
            r.related_party is None,
            r.source is None,
            r.reporting_system is None,
            r.at_type@.len() == 0,
            r.at_base_type is None,
            r.at_schema_location is None,
            r.extensions@.len() == 0,
    {
        TmfEvent {
            id: None,
            href: None,
            event_id: None,
            event_type: None,
            event_time: None,
            time_occurred: None,
            correlation_id: None,
            domain: None,
            title: None,
            description: None,
            priority: None,
            event: None,
            analytic_characteristic: None,
            related_party: None,
            source: None,
            reporting_system: None,
            at_type: String::new(),
            at_base_type: None,
            at_schema_location: None,
            extensions: Extensions::new(),
        }
    }

    /// The class this envelope declares, defaulting to `Event`.
    pub fn class_name(&self) -> (r: String)
        ensures
            r@ == (if self.at_type@.len() == 0 {
                "Event"@
            } else {
                self.at_type@
            }),
    {
        if self.at_type.as_str().is_empty() {
            "Event".to_owned()
        } else {
            self.at_type.clone()
        }
    }

    /// The event name: `eventType`, else the class.
    pub fn name(&self) -> (r: String)
        ensures
            r@ == declared_name(*self),
    {
        match &self.event_type {
            Some(t) => t.clone(),
            None => self.class_name(),
        }
    }

    /// What the event reports, read from its name.
    pub fn kind(&self) -> (r: Option<EventKind>)
        ensures
            r == kind_of_name(declared_name(*self)),
    {
        let name = self.name();
        EventKind::from_event_name(name.as_str())
    }

    /// The member of the payload that holds the changed resource, when the
    /// payload is an object and one member can be identified.
    pub fn resource_key(&self) -> (r: Option<String>)
        ensures
            r matches Some(k) ==> (payload_keys(self.event) matches Some(keys) && resource_key_spec(
                declared_name(*self),
                keys,
            ) == Some(k@)),
            r is None ==> (match payload_keys(self.event) {
                Some(keys) => resource_key_spec(declared_name(*self), keys) is None,
                None => true,
            }),
    {
        let members = match &self.event {
            Some(Payload::Object(m)) => m,
            _ => return None,
        };
        assert(self.event == Some(Payload::Object(*members)));
        let ghost keys = member_names(members@);
        let name = self.name();
        if let Some(kind) = EventKind::from_event_name(name.as_str()) {
            let v = chars_of(name.as_str());
            let sfx = chars_of(kind.suffix());
            proof {
                lemma_longest_suffix_wins(name@);
            }
            assert(ends_with(name@, suffix_of(kind)));
            let cut = v.len() - sfx.len();
            let ghost t = name@.take(name@.len() - suffix_of(kind).len());
            let mut derived_chars = crate::text::copy_range(v.as_slice(), 0, cut);
            assert(derived_chars@ =~= t);
            if derived_chars.len() > 0 {
                let first = to_lower(derived_chars[0]);
                derived_chars.set(0, first);
                assert(derived_chars@ =~= lower_first(t));
            } else {
                assert(derived_chars@ =~= lower_first(t));
            }
            let derived = crate::text::string_of(derived_chars.as_slice());
            assert(derived@ == lower_first(t));
            let mut i: usize = 0;
            while i < members.len()
                invariant
                    i <= members@.len(),
                    self.event == Some(Payload::Object(*members)),
                    name@ == declared_name(*self),
                    kind_of_name(name@) == Some(kind),
                    derived@ == lower_first(name@.take(name@.len() - suffix_of(kind).len())),
                    keys == member_names(members@),
                    forall|j: int| 0 <= j < i ==> keys[j] != derived@,
                decreases members@.len() - i,
            {
                if str_eq(members[i].0.as_str(), derived.as_str()) {
                    assert(keys[i as int] == derived@);
                    assert(keys.contains(derived@));
                    return Some(members[i].0.clone());
                }
                i = i + 1;
            }
            assert(!keys.contains(derived@));
        }
        if members.len() == 1 {
            assert(keys[0] == members@[0].0@);
            Some(members[0].0.clone())
        } else {
            None
        }
    }

    /// The JSON text of the payload member `key`, when the payload is an
    /// object holding it.
    pub fn payload(&self, key: &str) -> (r: Option<String>)
        ensures
            r matches Some(v) ==> payload_value(self.event, key@) == Some(v@),
            r is None ==> payload_value(self.event, key@) is None,
    {
        let members = match &self.event {
            Some(Payload::Object(m)) => m,
            _ => return None,
        };
        assert(self.event == Some(Payload::Object(*members)));
        let mut i: usize = 0;
        while i < members.len()
            invariant
                i <= members@.len(),
                self.event == Some(Payload::Object(*members)),
                member_from(members@, key@, 0) == member_from(members@, key@, i as int),
            decreases members@.len() - i,
        {
            if str_eq(members[i].0.as_str(), key) {
                return Some(members[i].1.clone());
            }
            i = i + 1;
        }
        None
    }
}

} // verus!
