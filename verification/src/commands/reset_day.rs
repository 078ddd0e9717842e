use vstd::prelude::*;
use crate::core_logic::timer::WorkTimer;

verus! {

/// Starts the day over (see `WorkTimer::reset_day`); never fails.
pub fn reset_day(timer: &mut WorkTimer) -> (res: Result<(), String>)
    ensures
        res is Ok,
        final(timer).start_time.wf(),
        final(timer).schedule == old(timer).schedule,
        final(timer).daily_target_minutes == old(timer).daily_target_minutes,
{
    timer.reset_day();
    Ok(())
}

} // verus!
