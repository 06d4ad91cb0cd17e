//! TMF642 Alarm Management: alarm values and the tasks that act on alarms.
pub mod fault;
pub mod task;

pub use fault::{AckState, AlarmState, AlarmType, PerceivedSeverity, PlannedOutageIndicator};
pub use task::{
    AckAlarm, AlarmTaskState, ClearAlarm, CommentAlarm, GroupAlarm, UnAckAlarm, UnGroupAlarm,
};
