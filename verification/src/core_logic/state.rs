use vstd::prelude::*;
use crate::core_logic::clock::{CalendarDate, TimeOfDay};

verus! {

/// What the worker should be doing now.
#[derive(Debug, Clone)]
pub enum WorkState {
    Working,
    Paused { reason: String, until: Option<TimeOfDay> },
    SoftBreak { label: String, until: Option<TimeOfDay> },
    Finished,
}

impl WorkState {
    /// Every time the state carries is a valid time of day.
    pub open spec fn wf(self) -> bool {
        match self {
            WorkState::Paused { until, .. } => until matches Some(t) ==> t.wf(),
            WorkState::SoftBreak { until, .. } => until matches Some(t) ==> t.wf(),
            _ => true,
        }
    }

    /// Checks that every time the state carries is a valid time of day.
    pub fn has_valid_times(&self) -> (b: bool)
        ensures
            b == self.wf(),
    {
        match self {
            WorkState::Paused { until: Some(t), .. } => t.is_valid(),
            WorkState::SoftBreak { until: Some(t), .. } => t.is_valid(),
            _ => true,
        }
    }
}

/// Two states are the same: the same variant, with equal texts and times.
pub open spec fn same_work_state(a: WorkState, b: WorkState) -> bool {
    match (a, b) {
        (WorkState::Working, WorkState::Working) => true,
        (WorkState::Finished, WorkState::Finished) => true,
        (
            WorkState::Paused { reason: r1, until: u1 },
            WorkState::Paused { reason: r2, until: u2 },
        ) => r1@ == r2@ && u1 == u2,
        (
            WorkState::SoftBreak { label: l1, until: u1 },
            WorkState::SoftBreak { label: l2, until: u2 },
        ) => l1@ == l2@ && u1 == u2,
        _ => false,
    }
}

impl PartialEq for WorkState {
    fn eq(&self, other: &WorkState) -> (res: bool) {
        match (self, other) {
            (WorkState::Working, WorkState::Working) => true,
            (WorkState::Finished, WorkState::Finished) => true,
            (
                WorkState::Paused { reason: r1, until: u1 },
                WorkState::Paused { reason: r2, until: u2 },
            ) => *r1 == *r2 && same_until(u1, u2),
            (
                WorkState::SoftBreak { label: l1, until: u1 },
                WorkState::SoftBreak { label: l2, until: u2 },
            ) => *l1 == *l2 && same_until(u1, u2),
            _ => false,
        }
    }
}

impl vstd::std_specs::cmp::PartialEqSpecImpl for WorkState {
    open spec fn obeys_eq_spec() -> bool {
        true
    }

    open spec fn eq_spec(&self, other: &WorkState) -> bool {
        same_work_state(*self, *other)
    }
}

fn same_until(a: &Option<TimeOfDay>, b: &Option<TimeOfDay>) -> (res: bool)
    ensures
        res == (*a == *b),
{
    match (a, b) {
        (None, None) => true,
        (Some(x), Some(y)) => *x == *y,
        _ => false,
    }
}

/// What is saved of a timer between runs.
#[derive(Debug, Clone, Copy, PartialEq, Eq, Structural)]
pub struct WorkTimerState {
    pub start_date: CalendarDate,
    pub start_time: TimeOfDay,
    pub daily_target_minutes: i64,
}

} // verus!
