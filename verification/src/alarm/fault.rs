//! TMF642 alarm values: what kind of alarm, how severe, and where it stands.
use vstd::prelude::*;
use crate::text::str_eq;

verus! {

/// The ITU-T X.733 category of an alarm.
#[derive(Debug, Clone, PartialEq, Eq)]
pub enum AlarmType {
    /// A communications failure.
    Communications,
    /// A software or processing fault.
    ProcessingError,
    /// An environmental condition.
    Environmental,
    /// A degradation in quality of service.
    QualityOfService,
    /// An equipment fault.
    Equipment,
    /// A data integrity violation.
    IntegrityViolation,
    /// An operational violation.
    OperationalViolation,
    /// A physical security violation.
    PhysicalViolation,
    /// A security service or mechanism violation.
    SecurityService,
    /// A security mechanism violation.
    MechanismViolation,
    /// An event outside its permitted time.
    TimeDomainViolation,
    /// A category this crate does not know, kept as sent.
    Other(String),
}

/// Whether `s` is one of the names [`AlarmType`] has a variant for.
pub open spec fn alarm_type_known(s: Seq<char>) -> bool {
    s == "communicationsAlarm"@
        || s == "processingErrorAlarm"@
        || s == "environmentalAlarm"@
        || s == "qualityOfServiceAlarm"@
        || s == "equipmentAlarm"@
        || s == "integrityViolation"@
        || s == "operationalViolation"@
        || s == "physicalViolation"@
        || s == "securityService"@
        || s == "mechanismViolation"@
        || s == "timeDomainViolation"@
}

impl AlarmType {
    /// The name this goes by on the wire.
    pub open spec fn wire_spec(&self) -> Seq<char> {
        match self {
            AlarmType::Communications => "communicationsAlarm"@,
            AlarmType::ProcessingError => "processingErrorAlarm"@,
            AlarmType::Environmental => "environmentalAlarm"@,
            AlarmType::QualityOfService => "qualityOfServiceAlarm"@,
            AlarmType::Equipment => "equipmentAlarm"@,
            AlarmType::IntegrityViolation => "integrityViolation"@,
            AlarmType::OperationalViolation => "operationalViolation"@,
            AlarmType::PhysicalViolation => "physicalViolation"@,
            AlarmType::SecurityService => "securityService"@,
            AlarmType::MechanismViolation => "mechanismViolation"@,
            AlarmType::TimeDomainViolation => "timeDomainViolation"@,
            AlarmType::Other(s) => s@,
        }
    }

    /// Whether the wire name `s` reads as `self`: a known name as its
    /// variant, and any other name as `Other` holding it.
    pub open spec fn read_from(&self, s: Seq<char>) -> bool {
        match self {
            AlarmType::Communications => s == "communicationsAlarm"@,
            AlarmType::ProcessingError => s == "processingErrorAlarm"@,
            AlarmType::Environmental => s == "environmentalAlarm"@,
            AlarmType::QualityOfService => s == "qualityOfServiceAlarm"@,
            AlarmType::Equipment => s == "equipmentAlarm"@,
            AlarmType::IntegrityViolation => s == "integrityViolation"@,
            AlarmType::OperationalViolation => s == "operationalViolation"@,
            AlarmType::PhysicalViolation => s == "physicalViolation"@,
            AlarmType::SecurityService => s == "securityService"@,
            AlarmType::MechanismViolation => s == "mechanismViolation"@,
            AlarmType::TimeDomainViolation => s == "timeDomainViolation"@,
            AlarmType::Other(t) => t@ == s && !alarm_type_known(s),
        }
    }

    /// The name this goes by on the wire.
    pub fn wire(&self) -> (r: String)
        ensures
            r@ == self.wire_spec(),
    {
        match self {
            AlarmType::Communications => "communicationsAlarm".to_owned(),
            AlarmType::ProcessingError => "processingErrorAlarm".to_owned(),
            AlarmType::Environmental => "environmentalAlarm".to_owned(),
            AlarmType::QualityOfService => "qualityOfServiceAlarm".to_owned(),
            AlarmType::Equipment => "equipmentAlarm".to_owned(),
            AlarmType::IntegrityViolation => "integrityViolation".to_owned(),
            AlarmType::OperationalViolation => "operationalViolation".to_owned(),
            AlarmType::PhysicalViolation => "physicalViolation".to_owned(),
            AlarmType::SecurityService => "securityService".to_owned(),
            AlarmType::MechanismViolation => "mechanismViolation".to_owned(),
            AlarmType::TimeDomainViolation => "timeDomainViolation".to_owned(),
            AlarmType::Other(s) => s.clone(),
        }
    }

    /// What a wire name reads as. A name this crate does not know is
    /// kept, so it is written back exactly as it was read.
    pub fn from_wire(s: &str) -> (r: Self)
        ensures
            r.read_from(s@),
            r.wire_spec() == s@,
    {
        if str_eq(s, "communicationsAlarm") {
            AlarmType::Communications
        } else if str_eq(s, "processingErrorAlarm") {
            AlarmType::ProcessingError
        } else if str_eq(s, "environmentalAlarm") {
            AlarmType::Environmental
        } else if str_eq(s, "qualityOfServiceAlarm") {
            AlarmType::QualityOfService
        } else if str_eq(s, "equipmentAlarm") {
            AlarmType::Equipment
        } else if str_eq(s, "integrityViolation") {
            AlarmType::IntegrityViolation
        } else if str_eq(s, "operationalViolation") {
            AlarmType::OperationalViolation
        } else if str_eq(s, "physicalViolation") {
            AlarmType::PhysicalViolation
        } else if str_eq(s, "securityService") {
            AlarmType::SecurityService
        } else if str_eq(s, "mechanismViolation") {
            AlarmType::MechanismViolation
        } else if str_eq(s, "timeDomainViolation") {
            AlarmType::TimeDomainViolation
        } else {
            AlarmType::Other(s.to_owned())
        }
    }
}

/// Writing a [`AlarmType`] and reading the name back gives the same value;
/// an unknown name comes back as `Other` holding the same name. The one
/// exception is an `Other` spelling a known name, which reads back as that
/// variant.
pub proof fn lemma_alarm_type_round_trip(e: AlarmType, r: AlarmType)
    requires
        !(e is Other && alarm_type_known(e.wire_spec())),
        r.read_from(e.wire_spec()),
    ensures
        e is Other ==> r is Other && r.wire_spec() == e.wire_spec(),
        !(e is Other) ==> r == e,
{
    reveal_strlit("communicationsAlarm");
    reveal_strlit("processingErrorAlarm");
    reveal_strlit("environmentalAlarm");
    reveal_strlit("qualityOfServiceAlarm");
    reveal_strlit("equipmentAlarm");
    reveal_strlit("integrityViolation");
    reveal_strlit("operationalViolation");
    reveal_strlit("physicalViolation");
    reveal_strlit("securityService");
    reveal_strlit("mechanismViolation");
    reveal_strlit("timeDomainViolation");
    assert("communicationsAlarm"@.len() != "processingErrorAlarm"@.len());
    assert("communicationsAlarm"@.len() != "environmentalAlarm"@.len());
    assert("communicationsAlarm"@.len() != "qualityOfServiceAlarm"@.len());
    assert("communicationsAlarm"@.len() != "equipmentAlarm"@.len());
    assert("communicationsAlarm"@.len() != "integrityViolation"@.len());
    assert("communicationsAlarm"@.len() != "operationalViolation"@.len());
    assert("communicationsAlarm"@.len() != "physicalViolation"@.len());
    assert("communicationsAlarm"@.len() != "securityService"@.len());
    assert("communicationsAlarm"@.len() != "mechanismViolation"@.len());
    assert("communicationsAlarm"@[0] != "timeDomainViolation"@[0]);
    assert("processingErrorAlarm"@.len() != "environmentalAlarm"@.len());
    assert("processingErrorAlarm"@.len() != "qualityOfServiceAlarm"@.len());
    assert("processingErrorAlarm"@.len() != "equipmentAlarm"@.len());
    assert("processingErrorAlarm"@.len() != "integrityViolation"@.len());
    assert("processingErrorAlarm"@[0] != "operationalViolation"@[0]);
    assert("processingErrorAlarm"@.len() != "physicalViolation"@.len());
    assert("processingErrorAlarm"@.len() != "securityService"@.len());
    assert("processingErrorAlarm"@.len() != "mechanismViolation"@.len());
    assert("processingErrorAlarm"@.len() != "timeDomainViolation"@.len());
    assert("environmentalAlarm"@.len() != "qualityOfServiceAlarm"@.len());
    assert("environmentalAlarm"@.len() != "equipmentAlarm"@.len());
    assert("environmentalAlarm"@[0] != "integrityViolation"@[0]);
    assert("environmentalAlarm"@.len() != "operationalViolation"@.len());
    assert("environmentalAlarm"@.len() != "physicalViolation"@.len());
    assert("environmentalAlarm"@.len() != "securityService"@.len());
    assert("environmentalAlarm"@[0] != "mechanismViolation"@[0]);
    assert("environmentalAlarm"@.len() != "timeDomainViolation"@.len());
    assert("qualityOfServiceAlarm"@.len() != "equipmentAlarm"@.len());
    assert("qualityOfServiceAlarm"@.len() != "integrityViolation"@.len());
    assert("qualityOfServiceAlarm"@.len() != "operationalViolation"@.len());
    assert("qualityOfServiceAlarm"@.len() != "physicalViolation"@.len());
    assert("qualityOfServiceAlarm"@.len() != "securityService"@.len());
    assert("qualityOfServiceAlarm"@.len() != "mechanismViolation"@.len());
    assert("qualityOfServiceAlarm"@.len() != "timeDomainViolation"@.len());
    assert("equipmentAlarm"@.len() != "integrityViolation"@.len());
    assert("equipmentAlarm"@.len() != "operationalViolation"@.len());
    assert("equipmentAlarm"@.len() != "physicalViolation"@.len());
    assert("equipmentAlarm"@.len() != "securityService"@.len());
    assert("equipmentAlarm"@.len() != "mechanismViolation"@.len());
    assert("equipmentAlarm"@.len() != "timeDomainViolation"@.len());
    assert("integrityViolation"@.len() != "operationalViolation"@.len());
    assert("integrityViolation"@.len() != "physicalViolation"@.len());
    assert("integrityViolation"@.len() != "securityService"@.len());
    assert("integrityViolation"@[0] != "mechanismViolation"@[0]);
    assert("integrityViolation"@.len() != "timeDomainViolation"@.len());
    assert("operationalViolation"@.len() != "physicalViolation"@.len());
    assert("operationalViolation"@.len() != "securityService"@.len());
    assert("operationalViolation"@.len() != "mechanismViolation"@.len());
    assert("operationalViolation"@.len() != "timeDomainViolation"@.len());
    assert("physicalViolation"@.len() != "securityService"@.len());
    assert("physicalViolation"@.len() != "mechanismViolation"@.len());
    assert("physicalViolation"@.len() != "timeDomainViolation"@.len());
    assert("securityService"@.len() != "mechanismViolation"@.len());
    assert("securityService"@.len() != "timeDomainViolation"@.len());
    assert("mechanismViolation"@.len() != "timeDomainViolation"@.len());
}
/// How severe an alarm is. `cleared` is a severity: X.733 reports "the
/// condition is gone" through it.
#[derive(Debug, Clone, PartialEq, Eq)]
pub enum PerceivedSeverity {
    /// Service-affecting; immediate action needed.
    Critical,
    /// Service-affecting; urgent action needed.
    Major,
    /// Not service-affecting; action needed.
    Minor,
    /// A potential fault.
    Warning,
    /// The severity cannot be determined.
    Indeterminate,
    /// The condition has cleared.
    Cleared,
    /// A severity this crate does not know, kept as sent.
    Other(String),
}

/// Whether `s` is one of the names [`PerceivedSeverity`] has a variant for.
pub open spec fn perceived_severity_known(s: Seq<char>) -> bool {
    s == "critical"@
        || s == "major"@
        || s == "minor"@
        || s == "warning"@
        || s == "indeterminate"@
        || s == "cleared"@
}

impl PerceivedSeverity {
    /// The name this goes by on the wire.
    pub open spec fn wire_spec(&self) -> Seq<char> {
        match self {
            PerceivedSeverity::Critical => "critical"@,
            PerceivedSeverity::Major => "major"@,
            PerceivedSeverity::Minor => "minor"@,
            PerceivedSeverity::Warning => "warning"@,
            PerceivedSeverity::Indeterminate => "indeterminate"@,
            PerceivedSeverity::Cleared => "cleared"@,
            PerceivedSeverity::Other(s) => s@,
        }
    }

    /// Whether the wire name `s` reads as `self`: a known name as its
    /// variant, and any other name as `Other` holding it.
    pub open spec fn read_from(&self, s: Seq<char>) -> bool {
        match self {
            PerceivedSeverity::Critical => s == "critical"@,
            PerceivedSeverity::Major => s == "major"@,
            PerceivedSeverity::Minor => s == "minor"@,
            PerceivedSeverity::Warning => s == "warning"@,
            PerceivedSeverity::Indeterminate => s == "indeterminate"@,
            PerceivedSeverity::Cleared => s == "cleared"@,
            PerceivedSeverity::Other(t) => t@ == s && !perceived_severity_known(s),
        }
    }

    /// The name this goes by on the wire.
    pub fn wire(&self) -> (r: String)
        ensures
            r@ == self.wire_spec(),
    {
        match self {
            PerceivedSeverity::Critical => "critical".to_owned(),
            PerceivedSeverity::Major => "major".to_owned(),
            PerceivedSeverity::Minor => "minor".to_owned(),
            PerceivedSeverity::Warning => "warning".to_owned(),
            PerceivedSeverity::Indeterminate => "indeterminate".to_owned(),
            PerceivedSeverity::Cleared => "cleared".to_owned(),
            PerceivedSeverity::Other(s) => s.clone(),
        }
    }

    /// What a wire name reads as. A name this crate does not know is
    /// kept, so it is written back exactly as it was read.
    pub fn from_wire(s: &str) -> (r: Self)
        ensures
            r.read_from(s@),
            r.wire_spec() == s@,
    {
        if str_eq(s, "critical") {
            PerceivedSeverity::Critical
        } else if str_eq(s, "major") {
            PerceivedSeverity::Major
        } else if str_eq(s, "minor") {
            PerceivedSeverity::Minor
        } else if str_eq(s, "warning") {
            PerceivedSeverity::Warning
        } else if str_eq(s, "indeterminate") {
            PerceivedSeverity::Indeterminate
        } else if str_eq(s, "cleared") {
            PerceivedSeverity::Cleared
        } else {
            PerceivedSeverity::Other(s.to_owned())
        }
    }
}

/// Writing a [`PerceivedSeverity`] and reading the name back gives the same value;
/// an unknown name comes back as `Other` holding the same name. The one
/// exception is an `Other` spelling a known name, which reads back as that
/// variant.
pub proof fn lemma_perceived_severity_round_trip(e: PerceivedSeverity, r: PerceivedSeverity)
    requires
        !(e is Other && perceived_severity_known(e.wire_spec())),
        r.read_from(e.wire_spec()),
    ensures
        e is Other ==> r is Other && r.wire_spec() == e.wire_spec(),
        !(e is Other) ==> r == e,
{
    reveal_strlit("critical");
    reveal_strlit("major");
    reveal_strlit("minor");
    reveal_strlit("warning");
    reveal_strlit("indeterminate");
    reveal_strlit("cleared");
    assert("critical"@.len() != "major"@.len());
    assert("critical"@.len() != "minor"@.len());
    assert("critical"@.len() != "warning"@.len());
    assert("critical"@.len() != "indeterminate"@.len());
    assert("critical"@.len() != "cleared"@.len());
    assert("major"@[1] != "minor"@[1]);
    assert("major"@.len() != "warning"@.len());
    assert("major"@.len() != "indeterminate"@.len());
    assert("major"@.len() != "cleared"@.len());
    assert("minor"@.len() != "warning"@.len());
    assert("minor"@.len() != "indeterminate"@.len());
    assert("minor"@.len() != "cleared"@.len());
    assert("warning"@.len() != "indeterminate"@.len());
    assert("warning"@[0] != "cleared"@[0]);
    assert("indeterminate"@.len() != "cleared"@.len());
}
impl PerceivedSeverity {
    /// Whether the alarm is still raised: every severity but `cleared`,
    /// including one this crate does not know.
    pub fn is_active(&self) -> (r: bool)
        ensures
            r == !(self is Cleared),
    {
        match self {
            PerceivedSeverity::Cleared => false,
            _ => true,
        }
    }
}

/// The lifecycle state of an alarm.
#[derive(Debug, Clone, PartialEq, Eq)]
pub enum AlarmState {
    /// The alarm was raised.
    Raised,
    /// The alarm was updated.
    Updated,
    /// The alarm was cleared.
    Cleared,
    /// A state this crate does not know, kept as sent.
    Other(String),
}

/// Whether `s` is one of the names [`AlarmState`] has a variant for.
pub open spec fn alarm_state_known(s: Seq<char>) -> bool {
    s == "raised"@
        || s == "updated"@
        || s == "cleared"@
}

impl AlarmState {
    /// The name this goes by on the wire.
    pub open spec fn wire_spec(&self) -> Seq<char> {
        match self {
            AlarmState::Raised => "raised"@,
            AlarmState::Updated => "updated"@,
            AlarmState::Cleared => "cleared"@,
            AlarmState::Other(s) => s@,
        }
    }

    /// Whether the wire name `s` reads as `self`: a known name as its
    /// variant, and any other name as `Other` holding it.
    pub open spec fn read_from(&self, s: Seq<char>) -> bool {
        match self {
            AlarmState::Raised => s == "raised"@,
            AlarmState::Updated => s == "updated"@,
            AlarmState::Cleared => s == "cleared"@,
            AlarmState::Other(t) => t@ == s && !alarm_state_known(s),
        }
    }

    /// The name this goes by on the wire.
    pub fn wire(&self) -> (r: String)
        ensures
            r@ == self.wire_spec(),
    {
        match self {
            AlarmState::Raised => "raised".to_owned(),
            AlarmState::Updated => "updated".to_owned(),
            AlarmState::Cleared => "cleared".to_owned(),
            AlarmState::Other(s) => s.clone(),
        }
    }

    /// What a wire name reads as. A name this crate does not know is
    /// kept, so it is written back exactly as it was read.
    pub fn from_wire(s: &str) -> (r: Self)
        ensures
            r.read_from(s@),
            r.wire_spec() == s@,
    {
        if str_eq(s, "raised") {
            AlarmState::Raised
        } else if str_eq(s, "updated") {
            AlarmState::Updated
        } else if str_eq(s, "cleared") {
            AlarmState::Cleared
        } else {
            AlarmState::Other(s.to_owned())
        }
    }
}

/// Writing a [`AlarmState`] and reading the name back gives the same value;
/// an unknown name comes back as `Other` holding the same name. The one
/// exception is an `Other` spelling a known name, which reads back as that
/// variant.
pub proof fn lemma_alarm_state_round_trip(e: AlarmState, r: AlarmState)
    requires
        !(e is Other && alarm_state_known(e.wire_spec())),
        r.read_from(e.wire_spec()),
    ensures
        e is Other ==> r is Other && r.wire_spec() == e.wire_spec(),
        !(e is Other) ==> r == e,
{
    reveal_strlit("raised");
    reveal_strlit("updated");
    reveal_strlit("cleared");
    assert("raised"@.len() != "updated"@.len());
    assert("raised"@.len() != "cleared"@.len());
    assert("updated"@[0] != "cleared"@[0]);
}
/// Whether an operator has acknowledged an alarm.
#[derive(Debug, Clone, PartialEq, Eq)]
pub enum AckState {
    /// Not yet acknowledged.
    Unacknowledged,
    /// Acknowledged.
    Acknowledged,
    /// A state this crate does not know, kept as sent.
    Other(String),
}

/// Whether `s` is one of the names [`AckState`] has a variant for.
pub open spec fn ack_state_known(s: Seq<char>) -> bool {
    s == "unacknowledged"@
        || s == "acknowledged"@
}

impl AckState {
    /// The name this goes by on the wire.
    pub open spec fn wire_spec(&self) -> Seq<char> {
        match self {
            AckState::Unacknowledged => "unacknowledged"@,
            AckState::Acknowledged => "acknowledged"@,
            AckState::Other(s) => s@,
        }
    }

    /// Whether the wire name `s` reads as `self`: a known name as its
    /// variant, and any other name as `Other` holding it.
    pub open spec fn read_from(&self, s: Seq<char>) -> bool {
        match self {
            AckState::Unacknowledged => s == "unacknowledged"@,
            AckState::Acknowledged => s == "acknowledged"@,
            AckState::Other(t) => t@ == s && !ack_state_known(s),
        }
    }

    /// The name this goes by on the wire.
    pub fn wire(&self) -> (r: String)
        ensures
            r@ == self.wire_spec(),
    {
        match self {
            AckState::Unacknowledged => "unacknowledged".to_owned(),
            AckState::Acknowledged => "acknowledged".to_owned(),
            AckState::Other(s) => s.clone(),
        }
    }

    /// What a wire name reads as. A name this crate does not know is
    /// kept, so it is written back exactly as it was read.
    pub fn from_wire(s: &str) -> (r: Self)
        ensures
            r.read_from(s@),
            r.wire_spec() == s@,
    {
        if str_eq(s, "unacknowledged") {
            AckState::Unacknowledged
        } else if str_eq(s, "acknowledged") {
            AckState::Acknowledged
        } else {
            AckState::Other(s.to_owned())
        }
    }
}

/// Writing a [`AckState`] and reading the name back gives the same value;
/// an unknown name comes back as `Other` holding the same name. The one
/// exception is an `Other` spelling a known name, which reads back as that
/// variant.
pub proof fn lemma_ack_state_round_trip(e: AckState, r: AckState)
    requires
        !(e is Other && ack_state_known(e.wire_spec())),
        r.read_from(e.wire_spec()),
    ensures
        e is Other ==> r is Other && r.wire_spec() == e.wire_spec(),
        !(e is Other) ==> r == e,
{
    reveal_strlit("unacknowledged");
    reveal_strlit("acknowledged");
    assert("unacknowledged"@.len() != "acknowledged"@.len());
}
/// Whether the alarmed object was in service.
#[derive(Debug, Clone, PartialEq, Eq)]
pub enum PlannedOutageIndicator {
    /// In service.
    InService,
    /// Out of service, as planned.
    OutOfService,
    /// A indicator this crate does not know, kept as sent.
    Other(String),
}

/// Whether `s` is one of the names [`PlannedOutageIndicator`] has a variant for.
pub open spec fn planned_outage_indicator_known(s: Seq<char>) -> bool {
    s == "InService"@
        || s == "OutOfService"@
}

impl PlannedOutageIndicator {
    /// The name this goes by on the wire.
    pub open spec fn wire_spec(&self) -> Seq<char> {
        match self {
            PlannedOutageIndicator::InService => "InService"@,
            PlannedOutageIndicator::OutOfService => "OutOfService"@,
            PlannedOutageIndicator::Other(s) => s@,
        }
    }

    /// Whether the wire name `s` reads as `self`: a known name as its
    /// variant, and any other name as `Other` holding it.
    pub open spec fn read_from(&self, s: Seq<char>) -> bool {
        match self {
            PlannedOutageIndicator::InService => s == "InService"@,
            PlannedOutageIndicator::OutOfService => s == "OutOfService"@,
            PlannedOutageIndicator::Other(t) => t@ == s && !planned_outage_indicator_known(s),
        }
    }

    /// The name this goes by on the wire.
    pub fn wire(&self) -> (r: String)
        ensures
            r@ == self.wire_spec(),
    {
        match self {
            PlannedOutageIndicator::InService => "InService".to_owned(),
            PlannedOutageIndicator::OutOfService => "OutOfService".to_owned(),
            PlannedOutageIndicator::Other(s) => s.clone(),
        }
    }

    /// What a wire name reads as. A name this crate does not know is
    /// kept, so it is written back exactly as it was read.
    pub fn from_wire(s: &str) -> (r: Self)
        ensures
            r.read_from(s@),
            r.wire_spec() == s@,
    {
        if str_eq(s, "InService") {
            PlannedOutageIndicator::InService
        } else if str_eq(s, "OutOfService") {
            PlannedOutageIndicator::OutOfService
        } else {
            PlannedOutageIndicator::Other(s.to_owned())
        }
    }
}

/// Writing a [`PlannedOutageIndicator`] and reading the name back gives the same value;
/// an unknown name comes back as `Other` holding the same name. The one
/// exception is an `Other` spelling a known name, which reads back as that
/// variant.
pub proof fn lemma_planned_outage_indicator_round_trip(e: PlannedOutageIndicator, r: PlannedOutageIndicator)
    requires
        !(e is Other && planned_outage_indicator_known(e.wire_spec())),
        r.read_from(e.wire_spec()),
    ensures
        e is Other ==> r is Other && r.wire_spec() == e.wire_spec(),
        !(e is Other) ==> r == e,
{
    reveal_strlit("InService");
    reveal_strlit("OutOfService");
    assert("InService"@.len() != "OutOfService"@.len());
}
} // verus!
