use vstd::prelude::*;
use crate::core_logic::calculator::{WorkCalculator, worked_minutes};
use crate::core_logic::clock::{CalendarDate, TimeOfDay, current_date, current_time};
use crate::core_logic::schedule::{BlockType, Schedule, active_block, lemma_active_block_is_first};
use crate::core_logic::state::{WorkState, WorkTimerState};

verus! {

/// A work day: when it started, its schedule of pauses and the minutes to be worked.
pub struct WorkTimer {
    pub start_time: TimeOfDay,
    pub schedule: Schedule,
    pub daily_target_minutes: i64,
}

impl WorkTimer {
    /// The start and every block of the schedule are valid times of day.
    pub open spec fn wf(self) -> bool {
        self.start_time.wf() && self.schedule.wf()
    }

    /// The state at time `now` after `worked` minutes of work: finished once the target is
    /// reached, else what the first block containing `now` says, else working.
    pub open spec fn state_at(self, now: TimeOfDay, worked: int) -> WorkState {
        if worked >= self.daily_target_minutes {
            WorkState::Finished
        } else {
            match active_block(self.schedule.blocks@, now) {
                Some(b) => match b.block_type {
                    BlockType::HardPause => WorkState::Paused { reason: b.label, until: Some(b.end) },
                    BlockType::SoftPause => WorkState::SoftBreak { label: b.label, until: Some(b.end) },
                },
                None => WorkState::Working,
            }
        }
    }

    /// The state at time `now`, with the minutes worked from the start until `now`.
    pub open spec fn state_now(self, now: TimeOfDay) -> WorkState {
        self.state_at(now, worked_minutes(self.start_time, now, self.schedule.blocks@))
    }

    pub fn new(start_time: TimeOfDay, schedule: Schedule, daily_target_minutes: i64) -> (t: Self)
        ensures
            t.start_time == start_time,
            t.schedule == schedule,
            t.daily_target_minutes == daily_target_minutes,
    {
        Self { start_time, schedule, daily_target_minutes }
    }

    /// The state now, by the system clock.
    pub fn get_state(&self) -> (s: WorkState)
        requires
            self.wf(),
        ensures
            exists|now: TimeOfDay| now.wf() && s == #[trigger] self.state_now(now),
            s.wf(),
    {
        let now = current_time();
        let s = self.state_at_time(now);
        assert(now.wf() && s == self.state_now(now));
        s
    }

    /// The state at time `now`, with the minutes worked from the start until `now`.
    pub fn state_at_time(&self, now: TimeOfDay) -> (s: WorkState)
        requires
            self.wf(),
            now.wf(),
        ensures
            s == self.state_now(now),
            s.wf(),
    {
        let worked_minutes = WorkCalculator::calculate_worked_minutes(
            self.start_time,
            now,
            &self.schedule,
        );
        self.determine_state(now, worked_minutes)
    }

    /// The state at time `now`, given the minutes worked so far.
    pub fn determine_state(&self, now: TimeOfDay, worked_minutes: i64) -> (s: WorkState)
        ensures
            s == self.state_at(now, worked_minutes as int),
            self.schedule.wf() ==> s.wf(),
    {
        proof {
            lemma_active_block_is_first(self.schedule.blocks@, now);
        }
        if worked_minutes >= self.daily_target_minutes {
            return WorkState::Finished;
        }
        if let Some(block) = self.schedule.get_active_block(now) {
            match block.block_type {
                BlockType::HardPause => {
                    return WorkState::Paused { reason: block.label.clone(), until: Some(block.end) };
                },
                BlockType::SoftPause => {
                    return WorkState::SoftBreak { label: block.label.clone(), until: Some(block.end) };
                },
            }
        }
        WorkState::Working
    }

    /// Starts the day over: the start becomes the current time of day, by the system clock.
    pub fn reset_day(&mut self)
        ensures
            final(self).start_time.wf(),
            final(self).schedule == old(self).schedule,
            final(self).daily_target_minutes == old(self).daily_target_minutes,
    {
        let now = current_time();
        self.restart_at(now);
    }

    /// Starts the day over at `now`.
    pub fn restart_at(&mut self, now: TimeOfDay)
        ensures
            final(self).start_time == now,
            final(self).schedule == old(self).schedule,
            final(self).daily_target_minutes == old(self).daily_target_minutes,
    {
        self.start_time = now;
    }

    /// What is saved of this timer: today's date, by the system clock, with its start and target.
    pub fn to_state(&self) -> (st: WorkTimerState)
        ensures
            st.start_time == self.start_time,
            st.daily_target_minutes == self.daily_target_minutes,
            st.start_date.wf(),
    {
        self.to_state_on(current_date())
    }

    /// What is saved of this timer on `date`: the date, with its start and target.
    pub fn to_state_on(&self, date: CalendarDate) -> (st: WorkTimerState)
        ensures
            st == (WorkTimerState {
                start_date: date,
                start_time: self.start_time,
                daily_target_minutes: self.daily_target_minutes,
            }),
    {
        WorkTimerState {
            start_date: date,
            start_time: self.start_time,
            daily_target_minutes: self.daily_target_minutes,
        }
    }

    /// A timer continued from a saved state, with the given schedule.
    pub fn from_state(state: WorkTimerState, schedule: Schedule) -> (t: WorkTimer)
        ensures
            t.start_time == state.start_time,
            t.schedule == schedule,
            t.daily_target_minutes == state.daily_target_minutes,
    {
        WorkTimer::new(state.start_time, schedule, state.daily_target_minutes)
    }
}

/// The day is over exactly when the worked minutes reach the target, whatever the schedule says.
pub proof fn lemma_finished_iff_target_reached(timer: WorkTimer, now: TimeOfDay, worked: int)
    ensures
        timer.state_at(now, worked) is Finished <==> worked >= timer.daily_target_minutes,
{
}

/// Below the target, a time outside every block of the schedule is working time.
pub proof fn lemma_outside_blocks_is_working(timer: WorkTimer, now: TimeOfDay, worked: int)
    requires
        worked < timer.daily_target_minutes,
        forall|i: int| 0 <= i < timer.schedule.blocks@.len() ==> !(#[trigger] timer.schedule.blocks@[i]).covers(now),
    ensures
        timer.state_at(now, worked) is Working,
{
    lemma_active_block_is_first(timer.schedule.blocks@, now);
}

} // verus!
