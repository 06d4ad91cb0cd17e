//! Small value types the specifications share.
use vstd::prelude::*;
use rust_decimal::Decimal;
use crate::model::extensible::{Extensions, TmfType};
use crate::text::str_eq;

verus! {

#[verifier::external_type_specification]
#[verifier::external_body]
pub struct ExDecimal(Decimal);

/// A monetary amount in a currency. The amount is a decimal, never a
/// binary float, whatever number form it arrived in.
#[derive(Debug, Clone)]
pub struct Money {
    /// The currency, as an ISO 4217 code.
    pub unit: Option<String>,
    /// The signed amount.
    pub value: Option<Decimal>,
    /// Members beyond those above.
    pub extensions: Extensions,
}

impl Money {
    /// An amount of `value` in the currency `unit`.
    pub fn new(unit: &str, value: Decimal) -> (r: Self)
        ensures
            r.unit matches Some(u) && u@ == unit@,
            r.value == Some(value),
            r.extensions@.len() == 0,
    {
        Money { unit: Some(unit.to_owned()), value: Some(value), extensions: Extensions::new() }
    }
}

/// What something costs, before and after tax.
#[derive(Debug, Clone)]
pub struct Price {
    /// The amount before tax.
    pub duty_free_amount: Option<Money>,
    /// The amount including tax.
    pub tax_included_amount: Option<Money>,
    /// The tax rate applied, as a percentage.
    pub tax_rate: Option<Decimal>,
    /// A percentage applied in place of an amount.
    pub percentage: Option<Decimal>,
    /// `@type`; empty when the payload did not say.
    pub at_type: String,
    /// `@baseType`.
    pub at_base_type: Option<String>,
    /// `@schemaLocation`.
    pub at_schema_location: Option<String>,
    /// Members beyond those above.
    pub extensions: Extensions,
}

impl TmfType for Price {
    const TYPE_NAME: &'static str = "Price";
    const REF_TYPE_NAME: &'static str = "EntityRef";
}

/// An amount in a unit of measure, such as 5 GB.
#[derive(Debug, Clone)]
pub struct Quantity {
    /// The unit of measure.
    pub units: Option<String>,
    /// How many of the unit.
    pub amount: Option<Decimal>,
    /// Members beyond those above.
    pub extensions: Extensions,
}

/// A length of time as a count of some unit; distinct from [`TimePeriod`],
/// which is a start and an end.
#[derive(Debug, Clone)]
pub struct Duration {
    /// How many units.
    pub amount: Option<i64>,
    /// The unit of time.
    pub units: Option<String>,
    /// Members beyond those above.
    pub extensions: Extensions,
}

/// The state of an asynchronous task resource (TMF622 and TMF679 declare
/// `TaskStateType` identically).
#[derive(Debug, Clone, PartialEq, Eq)]
pub enum TaskState {
    /// The request was received.
    Acknowledged,
    /// The request was refused.
    Rejected,
    /// The task is running.
    InProgress,
    /// The task was cancelled.
    Cancelled,
    /// The task completed.
    Done,
    /// The task failed.
    TerminatedWithError,
    /// A state this crate does not know, kept as sent.
    Other(String),
}

/// Whether `s` is one of the names [`TaskState`] has a variant for.
pub open spec fn task_state_known(s: Seq<char>) -> bool {
    s == "acknowledged"@
        || s == "rejected"@
        || s == "inProgress"@
        || s == "cancelled"@
        || s == "done"@
        || s == "terminatedWithError"@
}

impl TaskState {
    /// The name this goes by on the wire.
    pub open spec fn wire_spec(&self) -> Seq<char> {
        match self {
            TaskState::Acknowledged => "acknowledged"@,
            TaskState::Rejected => "rejected"@,
            TaskState::InProgress => "inProgress"@,
            TaskState::Cancelled => "cancelled"@,
            TaskState::Done => "done"@,
            TaskState::TerminatedWithError => "terminatedWithError"@,
            TaskState::Other(s) => s@,
        }
    }

    /// Whether the wire name `s` reads as `self`: a known name as its
    /// variant, and any other name as `Other` holding it.
    pub open spec fn read_from(&self, s: Seq<char>) -> bool {
        match self {
            TaskState::Acknowledged => s == "acknowledged"@,
            TaskState::Rejected => s == "rejected"@,
            TaskState::InProgress => s == "inProgress"@,
            TaskState::Cancelled => s == "cancelled"@,
            TaskState::Done => s == "done"@,
            TaskState::TerminatedWithError => s == "terminatedWithError"@,
            TaskState::Other(t) => t@ == s && !task_state_known(s),
        }
    }

    /// The name this goes by on the wire.
    pub fn wire(&self) -> (r: String)
        ensures
            r@ == self.wire_spec(),
    {
        match self {
            TaskState::Acknowledged => "acknowledged".to_owned(),
            TaskState::Rejected => "rejected".to_owned(),
            TaskState::InProgress => "inProgress".to_owned(),
            TaskState::Cancelled => "cancelled".to_owned(),
            TaskState::Done => "done".to_owned(),
            TaskState::TerminatedWithError => "terminatedWithError".to_owned(),
            TaskState::Other(s) => s.clone(),
        }
    }

    /// What a wire name reads as. A name this crate does not know is
    /// kept, so it is written back exactly as it was read.
    pub fn from_wire(s: &str) -> (r: Self)
        ensures
            r.read_from(s@),
            r.wire_spec() == s@,
    {
        if str_eq(s, "acknowledged") {
            TaskState::Acknowledged
        } else if str_eq(s, "rejected") {
            TaskState::Rejected
        } else if str_eq(s, "inProgress") {
            TaskState::InProgress
        } else if str_eq(s, "cancelled") {
            TaskState::Cancelled
        } else if str_eq(s, "done") {
            TaskState::Done
        } else if str_eq(s, "terminatedWithError") {
            TaskState::TerminatedWithError
        } else {
            TaskState::Other(s.to_owned())
        }
    }
}

/// Writing a [`TaskState`] and reading the name back gives the same value;
/// an unknown name comes back as `Other` holding the same name. The one
/// exception is an `Other` spelling a known name, which reads back as that
/// variant.
pub proof fn lemma_task_state_round_trip(e: TaskState, r: TaskState)
    requires
        !(e is Other && task_state_known(e.wire_spec())),
        r.read_from(e.wire_spec()),
    ensures
        e is Other ==> r is Other && r.wire_spec() == e.wire_spec(),
        !(e is Other) ==> r == e,
{
    reveal_strlit("acknowledged");
    reveal_strlit("rejected");
    reveal_strlit("inProgress");
    reveal_strlit("cancelled");
    reveal_strlit("done");
    reveal_strlit("terminatedWithError");
    assert("acknowledged"@.len() != "rejected"@.len());
    assert("acknowledged"@.len() != "inProgress"@.len());
    assert("acknowledged"@.len() != "cancelled"@.len());
    assert("acknowledged"@.len() != "done"@.len());
    assert("acknowledged"@.len() != "terminatedWithError"@.len());
    assert("rejected"@.len() != "inProgress"@.len());
    assert("rejected"@.len() != "cancelled"@.len());
    assert("rejected"@.len() != "done"@.len());
    assert("rejected"@.len() != "terminatedWithError"@.len());
    assert("inProgress"@.len() != "cancelled"@.len());
    assert("inProgress"@.len() != "done"@.len());
    assert("inProgress"@.len() != "terminatedWithError"@.len());
    assert("cancelled"@.len() != "done"@.len());
    assert("cancelled"@.len() != "terminatedWithError"@.len());
    assert("done"@.len() != "terminatedWithError"@.len());
}

impl TaskState {
    /// Whether the task has stopped, successfully or not: a poller can stop.
    /// An unknown state is not finished, so a poller keeps polling through it.
    pub open spec fn finished_spec(&self) -> bool {
        self is Done || self is Rejected || self is Cancelled || self is TerminatedWithError
    }

    /// Whether the task has stopped.
    pub fn is_finished(&self) -> (r: bool)
        ensures
            r == self.finished_spec(),
    {
        match self {
            TaskState::Done | TaskState::Rejected | TaskState::Cancelled
            | TaskState::TerminatedWithError => true,
            _ => false,
        }
    }

    /// Whether the task completed successfully.
    pub fn is_success(&self) -> (r: bool)
        ensures
            r == (self is Done),
            r ==> self.finished_spec(),
    {
        match self {
            TaskState::Done => true,
            _ => false,
        }
    }
}

/// How one product feature relates to another.
#[derive(Debug, Clone, PartialEq, Eq)]
pub enum FeatureRelationshipType {
    /// The other feature is excluded.
    Excluded,
    /// The other feature is included.
    Includes,
    /// The other feature may be included.
    MayInclude,
    /// The other feature is required.
    Requires,
    /// A relationship this crate does not know, kept as sent.
    Other(String),
}

/// Whether `s` is one of the names [`FeatureRelationshipType`] has a variant for.
pub open spec fn feature_relationship_type_known(s: Seq<char>) -> bool {
    s == "excluded"@
        || s == "includes"@
        || s == "may include"@
        || s == "requires"@
}

impl FeatureRelationshipType {
    /// The name this goes by on the wire.
    pub open spec fn wire_spec(&self) -> Seq<char> {
        match self {
            FeatureRelationshipType::Excluded => "excluded"@,
            FeatureRelationshipType::Includes => "includes"@,
            FeatureRelationshipType::MayInclude => "may include"@,
            FeatureRelationshipType::Requires => "requires"@,
            FeatureRelationshipType::Other(s) => s@,
        }
    }

    /// Whether the wire name `s` reads as `self`: a known name as its
    /// variant, and any other name as `Other` holding it.
    pub open spec fn read_from(&self, s: Seq<char>) -> bool {
        match self {
            FeatureRelationshipType::Excluded => s == "excluded"@,
            FeatureRelationshipType::Includes => s == "includes"@,
            FeatureRelationshipType::MayInclude => s == "may include"@,
            FeatureRelationshipType::Requires => s == "requires"@,
            FeatureRelationshipType::Other(t) => t@ == s && !feature_relationship_type_known(s),
        }
    }

    /// The name this goes by on the wire.
    pub fn wire(&self) -> (r: String)
        ensures
            r@ == self.wire_spec(),
    {
        match self {
            FeatureRelationshipType::Excluded => "excluded".to_owned(),
            FeatureRelationshipType::Includes => "includes".to_owned(),
            FeatureRelationshipType::MayInclude => "may include".to_owned(),
            FeatureRelationshipType::Requires => "requires".to_owned(),
            FeatureRelationshipType::Other(s) => s.clone(),
        }
    }

    /// What a wire name reads as. A name this crate does not know is
    /// kept, so it is written back exactly as it was read.
    pub fn from_wire(s: &str) -> (r: Self)
        ensures
            r.read_from(s@),
            r.wire_spec() == s@,
    {
        if str_eq(s, "excluded") {
            FeatureRelationshipType::Excluded
        } else if str_eq(s, "includes") {
            FeatureRelationshipType::Includes
        } else if str_eq(s, "may include") {
            FeatureRelationshipType::MayInclude
        } else if str_eq(s, "requires") {
            FeatureRelationshipType::Requires
        } else {
            FeatureRelationshipType::Other(s.to_owned())
        }
    }
}

/// Writing a [`FeatureRelationshipType`] and reading the name back gives the same value;
/// an unknown name comes back as `Other` holding the same name. The one
/// exception is an `Other` spelling a known name, which reads back as that
/// variant.
pub proof fn lemma_feature_relationship_type_round_trip(e: FeatureRelationshipType, r: FeatureRelationshipType)
    requires
        !(e is Other && feature_relationship_type_known(e.wire_spec())),
        r.read_from(e.wire_spec()),
    ensures
        e is Other ==> r is Other && r.wire_spec() == e.wire_spec(),
        !(e is Other) ==> r == e,
{
    reveal_strlit("excluded");
    reveal_strlit("includes");
    reveal_strlit("may include");
    reveal_strlit("requires");
    assert("excluded"@[0] != "includes"@[0]);
    assert("excluded"@.len() != "may include"@.len());
    assert("excluded"@[0] != "requires"@[0]);
    assert("includes"@.len() != "may include"@.len());
    assert("includes"@[0] != "requires"@[0]);
    assert("may include"@.len() != "requires"@.len());
}

/// A dated, authored remark attached to a resource.
#[derive(Debug, Clone)]
pub struct Note {
    /// Identifier of the note.
    pub id: Option<String>,
    /// Who wrote it.
    pub author: Option<String>,
    /// When it was written.
    pub date: Option<String>,
    /// The remark itself.
    pub text: Option<String>,
    /// `@type`; empty when not given.
    pub at_type: String,
    /// `@baseType`.
    pub at_base_type: Option<String>,
    /// `@schemaLocation`.
    pub at_schema_location: Option<String>,
    /// Members beyond those above.
    pub extensions: crate::model::extensible::Extensions,
}

impl crate::model::extensible::TmfType for Note {
    const TYPE_NAME: &'static str = "Note";
    const REF_TYPE_NAME: &'static str = "EntityRef";
}

impl Note {
    /// A note with the given text, declaring its class.
    pub fn new(text: &str) -> (r: Self)
        ensures
            r.text matches Some(t) && t@ == text@,
            r.id is None,
            r.author is None,
            r.date is None,
            r.at_type@ == "Note"@,
            r.at_base_type is None,
            r.at_schema_location is None,
            r.extensions@.len() == 0,
    {
        Note {
            id: None,
            author: None,
            date: None,
            text: Some(text.to_owned()),
            at_type: crate::model::extensible::default_type::<Note>(),
            at_base_type: None,
            at_schema_location: None,
            extensions: crate::model::extensible::Extensions::new(),
        }
    }
}

/// An instant, with the UTC offset it was written in. Instants compare by
/// when they are, whatever offset they were written in.
#[derive(Debug, Clone, Copy)]
pub struct Timestamp {
    /// Whole seconds since the Unix epoch, UTC.
    pub seconds: i64,
    /// Nanoseconds into that second; a leap second counts on past a billion.
    pub nanos: u32,
    /// The offset from UTC it was written in, in seconds.
    pub offset_seconds: i32,
}

/// Whether `a` is no later than `b`: by the second, then by the nanosecond,
/// the offset aside.
pub open spec fn at_or_before(a: Timestamp, b: Timestamp) -> bool {
    a.seconds < b.seconds || (a.seconds == b.seconds && a.nanos <= b.nanos)
}

/// What RFC 3339 text names, as `chrono` reads it into a
/// `DateTime<FixedOffset>`: whole seconds since the epoch, nanoseconds into
/// the second, and the offset in seconds; `None` when it does not read.
pub uninterp spec fn rfc3339_reading(text: Seq<char>) -> Option<(i64, u32, i32)>;

/// How `chrono` writes an instant at an offset in RFC 3339, `Z` for UTC and
/// as many fractional digits as it needs; `None` when `chrono` cannot hold
/// the instant, the offset, or the local time the offset gives.
pub uninterp spec fn rfc3339_writing(seconds: i64, nanos: u32, offset: i32) -> Option<Seq<char>>;

/// Reads RFC 3339 text.
///
/// Wraps `DateTime<FixedOffset>::from_str`, the parse `chrono`'s serde
/// support uses, and reads the result's epoch seconds, subsecond nanoseconds
/// and offset; the outcome depends on the text alone and is named by
/// [`rfc3339_reading`].
#[verifier::external_body]
fn parse_rfc3339(text: &str) -> (r: Option<(i64, u32, i32)>)
    ensures
        r == rfc3339_reading(text@),
{
    match text.parse::<chrono::DateTime<chrono::FixedOffset>>() {
        Ok(t) => Some((t.timestamp(), t.timestamp_subsec_nanos(), t.offset().local_minus_utc())),
        Err(_) => None,
    }
}

/// Writes an instant at an offset as RFC 3339.
///
/// Wraps `DateTime::from_timestamp`, `FixedOffset::east_opt` and
/// `to_rfc3339_opts` with `SecondsFormat::AutoSi` and `Z` for UTC, the form
/// `chrono`'s serde support writes; the text depends on the three numbers
/// alone and is named by [`rfc3339_writing`]. `to_rfc3339_opts` panics when
/// the offset moves the local time out of `chrono`'s range, so that case is
/// read first with `NaiveDateTime::checked_add_offset`, the same check it
/// makes, and answered `None`.
#[verifier::external_body]
fn write_rfc3339(seconds: i64, nanos: u32, offset: i32) -> (r: Option<String>)
    ensures
        r matches Some(t) ==> rfc3339_writing(seconds, nanos, offset) == Some(t@),
        r is None ==> rfc3339_writing(seconds, nanos, offset) is None,
{
    let utc = chrono::DateTime::from_timestamp(seconds, nanos)?;
    let zone = chrono::FixedOffset::east_opt(offset)?;
    utc.naive_utc().checked_add_offset(zone)?;
    Some(utc.with_timezone(&zone).to_rfc3339_opts(chrono::SecondsFormat::AutoSi, true))
}

impl Timestamp {
    /// The timestamp RFC 3339 text names, keeping the offset it was written
    /// in; `None` when the text is not a timestamp.
    pub fn from_rfc3339(text: &str) -> (r: Option<Timestamp>)
        ensures
            r == Timestamp::from_reading(rfc3339_reading(text@)),
    {
        Timestamp::from_parts(parse_rfc3339(text))
    }

    /// The timestamp a reading of seconds, nanoseconds and offset gives.
    pub open spec fn from_reading(reading: Option<(i64, u32, i32)>) -> Option<Timestamp> {
        match reading {
            Some((s, n, o)) => Some(Timestamp { seconds: s, nanos: n, offset_seconds: o }),
            None => None,
        }
    }

    /// The timestamp made of a reading of seconds, nanoseconds and offset.
    pub fn from_parts(reading: Option<(i64, u32, i32)>) -> (r: Option<Timestamp>)
        ensures
            r == Timestamp::from_reading(reading),
    {
        match reading {
            Some((s, n, o)) => Some(Timestamp { seconds: s, nanos: n, offset_seconds: o }),
            None => None,
        }
    }

    /// The timestamp as RFC 3339 text, in the offset it was written in;
    /// `None` when the instant or the offset is out of `chrono`'s range.
    pub fn to_rfc3339(&self) -> (r: Option<String>)
        ensures
            r matches Some(t) ==> rfc3339_writing(self.seconds, self.nanos, self.offset_seconds)
                == Some(t@),
            r is None ==> rfc3339_writing(self.seconds, self.nanos, self.offset_seconds) is None,
    {
        write_rfc3339(self.seconds, self.nanos, self.offset_seconds)
    }

    /// Whether `self` is no later than `other`.
    pub fn not_after(&self, other: &Timestamp) -> (r: bool)
        ensures
            r == at_or_before(*self, *other),
    {
        self.seconds < other.seconds || (self.seconds == other.seconds && self.nanos <= other.nanos)
    }
}

/// A period of time, open at either end when a bound is absent.
#[derive(Debug, Clone, Copy)]
pub struct TimePeriod {
    /// When it starts; included.
    pub start_date_time: Option<Timestamp>,
    /// When it ends; excluded.
    pub end_date_time: Option<Timestamp>,
}

/// Whether `at` falls in the period: at or after the start, before the end.
pub open spec fn period_contains(p: TimePeriod, at: Timestamp) -> bool {
    &&& (p.start_date_time matches Some(s) ==> at_or_before(s, at))
    &&& (p.end_date_time matches Some(e) ==> !at_or_before(e, at))
}

impl TimePeriod {
    /// The period from `start` on.
    pub fn starting(start: Timestamp) -> (r: Self)
        ensures
            r.start_date_time == Some(start),
            r.end_date_time is None,
    {
        TimePeriod { start_date_time: Some(start), end_date_time: None }
    }

    /// The period up to `end`.
    pub fn until(end: Timestamp) -> (r: Self)
        ensures
            r.start_date_time is None,
            r.end_date_time == Some(end),
    {
        TimePeriod { start_date_time: None, end_date_time: Some(end) }
    }

    /// The period from `start` up to `end`.
    pub fn between(start: Timestamp, end: Timestamp) -> (r: Self)
        ensures
            r.start_date_time == Some(start),
            r.end_date_time == Some(end),
    {
        TimePeriod { start_date_time: Some(start), end_date_time: Some(end) }
    }

    /// Whether `at` falls in the period: the start is included and the end
    /// is not, so back-to-back periods do not overlap.
    pub fn contains(&self, at: Timestamp) -> (r: bool)
        ensures
            r == period_contains(*self, at),
    {
        let after_start = match &self.start_date_time {
            Some(s) => s.not_after(&at),
            None => true,
        };
        let before_end = match &self.end_date_time {
            Some(e) => !e.not_after(&at),
            None => true,
        };
        after_start && before_end
    }
}

/// Back-to-back periods do not overlap: an instant in the first is not in
/// a second that starts where the first ends.
pub proof fn lemma_back_to_back_periods_do_not_overlap(a: Timestamp, b: Timestamp, c: Timestamp, at: Timestamp)
    ensures
        !(period_contains(TimePeriod { start_date_time: Some(a), end_date_time: Some(b) }, at)
            && period_contains(TimePeriod { start_date_time: Some(b), end_date_time: Some(c) }, at)),
{
}

/// Adjacent periods tile: an instant lies in the period from `a` to `c`
/// exactly when it lies in the part before `b` or in the part from `b` on.
pub proof fn lemma_adjacent_periods_tile(a: Timestamp, b: Timestamp, c: Timestamp, at: Timestamp)
    requires
        at_or_before(a, b),
        at_or_before(b, c),
    ensures
        period_contains(TimePeriod { start_date_time: Some(a), end_date_time: Some(c) }, at) == (
        period_contains(TimePeriod { start_date_time: Some(a), end_date_time: Some(b) }, at)
            || period_contains(TimePeriod { start_date_time: Some(b), end_date_time: Some(c) }, at)),
{
}

} // verus!
