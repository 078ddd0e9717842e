use vstd::prelude::*;
use crate::core_logic::clock::{CalendarDate, TimeOfDay, current_date, current_time};
use crate::core_logic::schedule::{BlockType, Schedule, TimeBlock};
use crate::core_logic::state::WorkTimerState;
use crate::core_logic::timer::WorkTimer;

verus! {

/// The standard schedule: lunch from 12:00 to 13:00 (a hard pause) and a coffee break from
/// 16:00 to 17:00 (a soft pause).
pub open spec fn is_default_schedule(s: Schedule) -> bool {
    &&& s.blocks@.len() == 2
    &&& s.blocks@[0].label@ == "Almoço"@
    &&& s.blocks@[0].start == TimeOfDay { secs: 43_200, frac: 0 }
    &&& s.blocks@[0].end == TimeOfDay { secs: 46_800, frac: 0 }
    &&& s.blocks@[0].block_type == BlockType::HardPause
    &&& s.blocks@[1].label@ == "Pausa para café"@
    &&& s.blocks@[1].start == TimeOfDay { secs: 57_600, frac: 0 }
    &&& s.blocks@[1].end == TimeOfDay { secs: 61_200, frac: 0 }
    &&& s.blocks@[1].block_type == BlockType::SoftPause
}

/// The daily target of a new timer: eight hours.
pub open spec fn default_daily_target() -> int {
    480
}

/// A new timer that starts now, by the system clock, with the standard schedule and target.
pub fn create_default_timer() -> (t: WorkTimer)
    ensures
        t.wf(),
        is_default_schedule(t.schedule),
        t.daily_target_minutes == default_daily_target(),
{
    WorkTimer::new(current_time(), schedule_default(), 8 * 60)
}

/// The standard schedule.
pub fn schedule_default() -> (s: Schedule)
    ensures
        is_default_schedule(s),
        s.wf(),
{
    let lunch = TimeBlock {
        label: String::from_str("Almoço"),
        start: TimeOfDay::from_hms_opt(12, 0, 0).unwrap(),
        end: TimeOfDay::from_hms_opt(13, 0, 0).unwrap(),
        block_type: BlockType::HardPause,
    };
    let coffee = TimeBlock {
        label: String::from_str("Pausa para café"),
        start: TimeOfDay::from_hms_opt(16, 0, 0).unwrap(),
        end: TimeOfDay::from_hms_opt(17, 0, 0).unwrap(),
        block_type: BlockType::SoftPause,
    };
    let s = Schedule { blocks: vec![lunch, coffee] };
    assert(s.blocks@[0] == lunch && s.blocks@[1] == coffee);
    s
}

/// The saved timer continued with the standard schedule when it was saved on `today`, else
/// nothing (a new day starts a new timer).
pub fn restore_timer_on(saved: WorkTimerState, today: CalendarDate) -> (res: Option<WorkTimer>)
    ensures
        res is Some <==> saved.start_date == today,
        res matches Some(t) ==> {
            &&& t.start_time == saved.start_time
            &&& t.daily_target_minutes == saved.daily_target_minutes
            &&& is_default_schedule(t.schedule)
            &&& (saved.start_time.wf() ==> t.wf())
        },
{
    if today == saved.start_date {
        Some(WorkTimer::from_state(saved, schedule_default()))
    } else {
        None
    }
}

/// The saved timer continued when it was saved today, by the system clock, else nothing.
pub fn restore_timer(saved: WorkTimerState) -> (res: Option<WorkTimer>)
    ensures
        exists|today: CalendarDate| #[trigger] today.wf() && (res is Some <==> saved.start_date == today),
        res matches Some(t) ==> {
            &&& t.start_time == saved.start_time
            &&& t.daily_target_minutes == saved.daily_target_minutes
            &&& is_default_schedule(t.schedule)
            &&& (saved.start_time.wf() ==> t.wf())
        },
{
    restore_timer_on(saved, current_date())
}

} // verus!
