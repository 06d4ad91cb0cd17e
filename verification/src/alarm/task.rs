//! TMF642 alarm tasks: acknowledging, clearing, commenting on and grouping
//! alarms, each an asynchronous resource with a state to poll.
use vstd::prelude::*;
use crate::text::str_eq;
use crate::model::extensible::{Extensions, TmfType};

verus! {

/// Where an alarm task stands. TMF642 declares both `cancel` and
/// `canceled`.
#[derive(Debug, Clone, PartialEq, Eq)]
pub enum AlarmTaskState {
    /// The task was received.
    Acknowledged,
    /// The task is running.
    InProgress,
    /// The task completed.
    Done,
    /// Cancellation was requested.
    Cancel,
    /// The task was cancelled.
    Canceled,
    /// The task failed.
    TerminatedWithError,
    /// A state this crate does not know, kept as sent.
    Other(String),
}

/// Whether `s` is one of the names [`AlarmTaskState`] has a variant for.
pub open spec fn alarm_task_state_known(s: Seq<char>) -> bool {
    s == "acknowledged"@
        || s == "inProgress"@
        || s == "done"@
        || s == "cancel"@
        || s == "canceled"@
        || s == "terminatedWithError"@
}

impl AlarmTaskState {
    /// The name this goes by on the wire.
    pub open spec fn wire_spec(&self) -> Seq<char> {
        match self {
            AlarmTaskState::Acknowledged => "acknowledged"@,
            AlarmTaskState::InProgress => "inProgress"@,
            AlarmTaskState::Done => "done"@,
            AlarmTaskState::Cancel => "cancel"@,
            AlarmTaskState::Canceled => "canceled"@,
            AlarmTaskState::TerminatedWithError => "terminatedWithError"@,
            AlarmTaskState::Other(s) => s@,
        }
    }

    /// Whether the wire name `s` reads as `self`: a known name as its
    /// variant, and any other name as `Other` holding it.
    pub open spec fn read_from(&self, s: Seq<char>) -> bool {
        match self {
            AlarmTaskState::Acknowledged => s == "acknowledged"@,
            AlarmTaskState::InProgress => s == "inProgress"@,
            AlarmTaskState::Done => s == "done"@,
            AlarmTaskState::Cancel => s == "cancel"@,
            AlarmTaskState::Canceled => s == "canceled"@,
            AlarmTaskState::TerminatedWithError => s == "terminatedWithError"@,
            AlarmTaskState::Other(t) => t@ == s && !alarm_task_state_known(s),
        }
    }

    /// The name this goes by on the wire.
    pub fn wire(&self) -> (r: String)
        ensures
            r@ == self.wire_spec(),
    {
        match self {
            AlarmTaskState::Acknowledged => "acknowledged".to_owned(),
            AlarmTaskState::InProgress => "inProgress".to_owned(),
            AlarmTaskState::Done => "done".to_owned(),
            AlarmTaskState::Cancel => "cancel".to_owned(),
            AlarmTaskState::Canceled => "canceled".to_owned(),
            AlarmTaskState::TerminatedWithError => "terminatedWithError".to_owned(),
            AlarmTaskState::Other(s) => s.clone(),
        }
    }

    /// What a wire name reads as. A name this crate does not know is
    /// kept, so it is written back exactly as it was read.
    pub fn from_wire(s: &str) -> (r: Self)
        ensures
            r.read_from(s@),
            r.wire_spec() == s@,
    {
        if str_eq(s, "acknowledged") {
            AlarmTaskState::Acknowledged
        } else if str_eq(s, "inProgress") {
            AlarmTaskState::InProgress
        } else if str_eq(s, "done") {
            AlarmTaskState::Done
        } else if str_eq(s, "cancel") {
            AlarmTaskState::Cancel
        } else if str_eq(s, "canceled") {
            AlarmTaskState::Canceled
        } else if str_eq(s, "terminatedWithError") {
            AlarmTaskState::TerminatedWithError
        } else {
            AlarmTaskState::Other(s.to_owned())
        }
    }
}

/// Writing a [`AlarmTaskState`] and reading the name back gives the same value;
/// an unknown name comes back as `Other` holding the same name. The one
/// exception is an `Other` spelling a known name, which reads back as that
/// variant.
pub proof fn lemma_alarm_task_state_round_trip(e: AlarmTaskState, r: AlarmTaskState)
    requires
        !(e is Other && alarm_task_state_known(e.wire_spec())),
        r.read_from(e.wire_spec()),
    ensures
        e is Other ==> r is Other && r.wire_spec() == e.wire_spec(),
        !(e is Other) ==> r == e,
{
    reveal_strlit("acknowledged");
    reveal_strlit("inProgress");
    reveal_strlit("done");
    reveal_strlit("cancel");
    reveal_strlit("canceled");
    reveal_strlit("terminatedWithError");
    assert("acknowledged"@.len() != "inProgress"@.len());
    assert("acknowledged"@.len() != "done"@.len());
    assert("acknowledged"@.len() != "cancel"@.len());
    assert("acknowledged"@.len() != "canceled"@.len());
    assert("acknowledged"@.len() != "terminatedWithError"@.len());
    assert("inProgress"@.len() != "done"@.len());
    assert("inProgress"@.len() != "cancel"@.len());
    assert("inProgress"@.len() != "canceled"@.len());
    assert("inProgress"@.len() != "terminatedWithError"@.len());
    assert("done"@.len() != "cancel"@.len());
    assert("done"@.len() != "canceled"@.len());
    assert("done"@.len() != "terminatedWithError"@.len());
    assert("cancel"@.len() != "canceled"@.len());
    assert("cancel"@.len() != "terminatedWithError"@.len());
    assert("canceled"@.len() != "terminatedWithError"@.len());
}
impl AlarmTaskState {
    /// Whether the task has stopped: `done`, `canceled` or
    /// `terminatedWithError`. `cancel` is a request still being acted on, and
    /// a state this crate does not know is not finished either, so a poller
    /// keeps polling through it.
    pub fn is_finished(&self) -> (r: bool)
        ensures
            r == (self is Done || self is Canceled || self is TerminatedWithError),
    {
        match self {
            AlarmTaskState::Done | AlarmTaskState::Canceled
            | AlarmTaskState::TerminatedWithError => true,
            _ => false,
        }
    }
}

/// The `AckAlarm` task: a request to act on the alarms matching a pattern,
/// and its outcome. References to alarms are held as their JSON text.
#[derive(Debug, Clone)]
pub struct AckAlarm {
    /// Identifier of the task.
    pub id: Option<String>,
    /// Reference of the task.
    pub href: Option<String>,
    /// Where the task stands.
    pub state: Option<AlarmTaskState>,
    /// The alarms to acknowledge, as JSON text.
    pub alarm_pattern: Option<String>,
    /// The alarms acknowledged, as JSON text.
    pub acked_alarm: Option<String>,
    /// When they were acknowledged.
    pub ack_time: Option<String>,
    /// The acknowledging system.
    pub ack_system_id: Option<String>,
    /// The acknowledging user.
    pub ack_user_id: Option<String>,
    /// `@type`; empty when not given.
    pub at_type: String,
    /// `@baseType`.
    pub at_base_type: Option<String>,
    /// `@schemaLocation`.
    pub at_schema_location: Option<String>,
    /// Members beyond those above.
    pub extensions: Extensions,
}

impl TmfType for AckAlarm {
    const TYPE_NAME: &'static str = "AckAlarm";
    const REF_TYPE_NAME: &'static str = "EntityRef";
}

impl crate::model::reference::Entity for AckAlarm {
    open spec fn id_spec(&self) -> Option<Seq<char>> {
        match self.id {
            Some(i) => Some(i@),
            None => None,
        }
    }

    open spec fn href_spec(&self) -> Option<Seq<char>> {
        match self.href {
            Some(h) => Some(h@),
            None => None,
        }
    }

    fn id(&self) -> (r: Option<&str>) {
        match &self.id {
            Some(i) => Some(i.as_str()),
            None => None,
        }
    }

    fn href(&self) -> (r: Option<&str>)
        ensures
            match r {
                Some(h) => self.href matches Some(s) && s@ == h@,
                None => self.href is None,
            },
    {
        match &self.href {
            Some(h) => Some(h.as_str()),
            None => None,
        }
    }
}
/// The `UnAckAlarm` task: a request to act on the alarms matching a pattern,
/// and its outcome. References to alarms are held as their JSON text.
#[derive(Debug, Clone)]
pub struct UnAckAlarm {
    /// Identifier of the task.
    pub id: Option<String>,
    /// Reference of the task.
    pub href: Option<String>,
    /// Where the task stands.
    pub state: Option<AlarmTaskState>,
    /// The alarms to unacknowledge, as JSON text.
    pub alarm_pattern: Option<String>,
    /// The alarms unacknowledged, as JSON text.
    pub un_acked_alarm: Option<String>,
    /// When they were unacknowledged.
    pub ack_time: Option<String>,
    /// The unacknowledging system.
    pub ack_system_id: Option<String>,
    /// The unacknowledging user.
    pub ack_user_id: Option<String>,
    /// `@type`; empty when not given.
    pub at_type: String,
    /// `@baseType`.
    pub at_base_type: Option<String>,
    /// `@schemaLocation`.
    pub at_schema_location: Option<String>,
    /// Members beyond those above.
    pub extensions: Extensions,
}

impl TmfType for UnAckAlarm {
    const TYPE_NAME: &'static str = "UnAckAlarm";
    const REF_TYPE_NAME: &'static str = "EntityRef";
}

impl crate::model::reference::Entity for UnAckAlarm {
    open spec fn id_spec(&self) -> Option<Seq<char>> {
        match self.id {
            Some(i) => Some(i@),
            None => None,
        }
    }

    open spec fn href_spec(&self) -> Option<Seq<char>> {
        match self.href {
            Some(h) => Some(h@),
            None => None,
        }
    }

    fn id(&self) -> (r: Option<&str>) {
        match &self.id {
            Some(i) => Some(i.as_str()),
            None => None,
        }
    }

    fn href(&self) -> (r: Option<&str>)
        ensures
            match r {
                Some(h) => self.href matches Some(s) && s@ == h@,
                None => self.href is None,
            },
    {
        match &self.href {
            Some(h) => Some(h.as_str()),
            None => None,
        }
    }
}
/// The `ClearAlarm` task: a request to act on the alarms matching a pattern,
/// and its outcome. References to alarms are held as their JSON text.
#[derive(Debug, Clone)]
pub struct ClearAlarm {
    /// Identifier of the task.
    pub id: Option<String>,
    /// Reference of the task.
    pub href: Option<String>,
    /// Where the task stands.
    pub state: Option<AlarmTaskState>,
    /// The alarms to clear, as JSON text.
    pub alarm_pattern: Option<String>,
    /// The alarms cleared, as JSON text.
    pub cleared_alarm: Option<String>,
    /// When they were cleared.
    pub alarm_cleared_time: Option<String>,
    /// The clearing system.
    pub clear_system_id: Option<String>,
    /// The clearing user.
    pub clear_user_id: Option<String>,
    /// `@type`; empty when not given.
    pub at_type: String,
    /// `@baseType`.
    pub at_base_type: Option<String>,
    /// `@schemaLocation`.
    pub at_schema_location: Option<String>,
    /// Members beyond those above.
    pub extensions: Extensions,
}

impl TmfType for ClearAlarm {
    const TYPE_NAME: &'static str = "ClearAlarm";
    const REF_TYPE_NAME: &'static str = "EntityRef";
}

impl crate::model::reference::Entity for ClearAlarm {
    open spec fn id_spec(&self) -> Option<Seq<char>> {
        match self.id {
            Some(i) => Some(i@),
            None => None,
        }
    }

    open spec fn href_spec(&self) -> Option<Seq<char>> {
        match self.href {
            Some(h) => Some(h@),
            None => None,
        }
    }

    fn id(&self) -> (r: Option<&str>) {
        match &self.id {
            Some(i) => Some(i.as_str()),
            None => None,
        }
    }

    fn href(&self) -> (r: Option<&str>)
        ensures
            match r {
                Some(h) => self.href matches Some(s) && s@ == h@,
                None => self.href is None,
            },
    {
        match &self.href {
            Some(h) => Some(h.as_str()),
            None => None,
        }
    }
}
/// The `CommentAlarm` task: a request to act on the alarms matching a pattern,
/// and its outcome. References to alarms are held as their JSON text.
#[derive(Debug, Clone)]
pub struct CommentAlarm {
    /// Identifier of the task.
    pub id: Option<String>,
    /// Reference of the task.
    pub href: Option<String>,
    /// Where the task stands.
    pub state: Option<AlarmTaskState>,
    /// The alarms to comment on, as JSON text.
    pub alarm_pattern: Option<String>,
    /// The alarms commented on, as JSON text.
    pub commented_alarm: Option<String>,
    /// The comment, as JSON text.
    pub comment: Option<String>,
    /// `@type`; empty when not given.
    pub at_type: String,
    /// `@baseType`.
    pub at_base_type: Option<String>,
    /// `@schemaLocation`.
    pub at_schema_location: Option<String>,
    /// Members beyond those above.
    pub extensions: Extensions,
}

impl TmfType for CommentAlarm {
    const TYPE_NAME: &'static str = "CommentAlarm";
    const REF_TYPE_NAME: &'static str = "EntityRef";
}

impl crate::model::reference::Entity for CommentAlarm {
    open spec fn id_spec(&self) -> Option<Seq<char>> {
        match self.id {
            Some(i) => Some(i@),
            None => None,
        }
    }

    open spec fn href_spec(&self) -> Option<Seq<char>> {
        match self.href {
            Some(h) => Some(h@),
            None => None,
        }
    }

    fn id(&self) -> (r: Option<&str>) {
        match &self.id {
            Some(i) => Some(i.as_str()),
            None => None,
        }
    }

    fn href(&self) -> (r: Option<&str>)
        ensures
            match r {
                Some(h) => self.href matches Some(s) && s@ == h@,
                None => self.href is None,
            },
    {
        match &self.href {
            Some(h) => Some(h.as_str()),
            None => None,
        }
    }
}
/// The `GroupAlarm` task: a request to act on the alarms matching a pattern,
/// and its outcome. References to alarms are held as their JSON text.
#[derive(Debug, Clone)]
pub struct GroupAlarm {
    /// Identifier of the task.
    pub id: Option<String>,
    /// Reference of the task.
    pub href: Option<String>,
    /// Where the task stands.
    pub state: Option<AlarmTaskState>,
    /// The alarms grouped, as JSON text.
    pub grouped_alarm: Option<String>,
    /// The correlated alarms, as JSON text.
    pub correlated_alarm: Option<String>,
    /// The parent alarm, as JSON text.
    pub parent_alarm: Option<String>,
    /// When the grouping changed.
    pub alarm_changed_time: Option<String>,
    /// The grouping system.
    pub source_system_id: Option<String>,
    /// `@type`; empty when not given.
    pub at_type: String,
    /// `@baseType`.
    pub at_base_type: Option<String>,
    /// `@schemaLocation`.
    pub at_schema_location: Option<String>,
    /// Members beyond those above.
    pub extensions: Extensions,
}

impl TmfType for GroupAlarm {
    const TYPE_NAME: &'static str = "GroupAlarm";
    const REF_TYPE_NAME: &'static str = "EntityRef";
}

impl crate::model::reference::Entity for GroupAlarm {
    open spec fn id_spec(&self) -> Option<Seq<char>> {
        match self.id {
            Some(i) => Some(i@),
            None => None,
        }
    }

    open spec fn href_spec(&self) -> Option<Seq<char>> {
        match self.href {
            Some(h) => Some(h@),
            None => None,
        }
    }

    fn id(&self) -> (r: Option<&str>) {
        match &self.id {
            Some(i) => Some(i.as_str()),
            None => None,
        }
    }

    fn href(&self) -> (r: Option<&str>)
        ensures
            match r {
                Some(h) => self.href matches Some(s) && s@ == h@,
                None => self.href is None,
            },
    {
        match &self.href {
            Some(h) => Some(h.as_str()),
            None => None,
        }
    }
}
/// The `UnGroupAlarm` task: a request to act on the alarms matching a pattern,
/// and its outcome. References to alarms are held as their JSON text.
#[derive(Debug, Clone)]
pub struct UnGroupAlarm {
    /// Identifier of the task.
    pub id: Option<String>,
    /// Reference of the task.
    pub href: Option<String>,
    /// Where the task stands.
    pub state: Option<AlarmTaskState>,
    /// The alarms ungrouped, as JSON text.
    pub un_grouped_alarm: Option<String>,
    /// The correlated alarms, as JSON text.
    pub correlated_alarm: Option<String>,
    /// The parent alarm, as JSON text.
    pub parent_alarm: Option<String>,
    /// When the grouping changed.
    pub alarm_changed_time: Option<String>,
    /// The ungrouping system.
    pub source_system_id: Option<String>,
    /// `@type`; empty when not given.
    pub at_type: String,
    /// `@baseType`.
    pub at_base_type: Option<String>,
    /// `@schemaLocation`.
    pub at_schema_location: Option<String>,
    /// Members beyond those above.
    pub extensions: Extensions,
}

impl TmfType for UnGroupAlarm {
    const TYPE_NAME: &'static str = "UnGroupAlarm";
    const REF_TYPE_NAME: &'static str = "EntityRef";
}

impl crate::model::reference::Entity for UnGroupAlarm {
    open spec fn id_spec(&self) -> Option<Seq<char>> {
        match self.id {
            Some(i) => Some(i@),
            None => None,
        }
    }

    open spec fn href_spec(&self) -> Option<Seq<char>> {
        match self.href {
            Some(h) => Some(h@),
            None => None,
        }
    }

    fn id(&self) -> (r: Option<&str>) {
        match &self.id {
            Some(i) => Some(i.as_str()),
            None => None,
        }
    }

    fn href(&self) -> (r: Option<&str>)
        ensures
            match r {
                Some(h) => self.href matches Some(s) && s@ == h@,
                None => self.href is None,
            },
    {
        match &self.href {
            Some(h) => Some(h.as_str()),
            None => None,
        }
    }
}
} // verus!
